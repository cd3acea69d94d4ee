//! The `issues` command line as data, and what the commands send to the
//! issue tracker: filters and the inputs of creations and updates.

use vstd::prelude::*;

use crate::text::texts_of;

verus! {

/// Manage issues.
#[derive(Debug)]
pub struct IssuesCmd {
    pub action: IssuesAction,
}

/// One `issues` subcommand with its arguments.
#[derive(Debug)]
pub enum IssuesAction {
    /// List issues across the workspace, newest first.
    List { limit: i64, team: Option<String>, project: Option<String>, mine: bool, show_done: bool },
    /// Show one issue in full.
    Read { identifier: String },
    /// Full-text search across issue titles and descriptions.
    Search {
        query: String,
        limit: i64,
        show_done: bool,
        team: Option<String>,
        assignee: Option<String>,
        status: Option<Vec<String>>,
    },
    /// Create an issue.
    Create {
        title: String,
        team: String,
        assignee: Option<String>,
        labels: Option<Vec<String>>,
        priority: Option<i64>,
        estimate: Option<i64>,
        description: Option<String>,
        parent: Option<String>,
        status: Option<String>,
        project: Option<String>,
        cycle: Option<String>,
    },
    /// Archive an issue.
    Archive { identifier: String },
    /// Unarchive an issue.
    Unarchive { identifier: String },
    /// Delete (trash) an issue, or delete it permanently.
    Delete { identifier: String, permanently: bool },
    /// Update an issue.
    Update {
        identifier: String,
        status: Option<String>,
        priority: Option<i64>,
        estimate: Option<i64>,
        labels: Option<Vec<String>>,
        label_by: LabelMode,
        clear_labels: bool,
        assignee: Option<String>,
        parent: Option<String>,
        clear_parent: bool,
        title: Option<String>,
        description: Option<String>,
        project: Option<String>,
        cycle: Option<String>,
    },
}

/// How `--labels` applies to the labels an issue already has.
#[derive(Debug, Clone, Copy, PartialEq, Eq)]
pub enum LabelMode {
    /// Replace all existing labels with the specified ones.
    Replacing,
    /// Add labels to the existing set.
    Adding,
    /// Remove the specified labels from the existing set.
    Removing,
}

/// A condition on the workflow state of issues.
#[derive(Debug, Clone, PartialEq)]
pub enum StateFilter {
    /// The state's type is none of these.
    TypeNotIn(Vec<String>),
    /// The state's name is one of these.
    NameIn(Vec<String>),
}

/// A filter of issues; each present part must hold.
#[derive(Debug, Clone, PartialEq)]
pub struct IssueFilter {
    pub state: Option<StateFilter>,
    /// The issue's team has this id.
    pub team_id: Option<String>,
    /// The issue's assignee has this id.
    pub assignee_id: Option<String>,
    /// The issue's project has this id.
    pub project_id: Option<String>,
}

/// The fields of a new issue; absent fields are left to the tracker.
#[derive(Debug, Clone, PartialEq)]
pub struct IssueCreateInput {
    pub title: Option<String>,
    pub team_id: Option<String>,
    pub assignee_id: Option<String>,
    pub label_ids: Option<Vec<String>>,
    pub priority: Option<i64>,
    pub estimate: Option<i64>,
    pub description: Option<String>,
    pub parent_id: Option<String>,
    pub state_id: Option<String>,
    pub project_id: Option<String>,
    pub cycle_id: Option<String>,
}

/// What an update does to the parent of an issue.
#[derive(Debug, Clone, PartialEq)]
pub enum ParentChange {
    /// The parent stays as it is.
    Keep,
    /// The issue becomes a sub-issue of the issue with this id.
    SetTo(String),
    /// The issue stops being a sub-issue (the parent is sent as null).
    Clear,
}

/// The changes of an update; absent fields stay as they are.
#[derive(Debug, Clone, PartialEq)]
pub struct IssueUpdateInput {
    pub title: Option<String>,
    pub description: Option<String>,
    pub assignee_id: Option<String>,
    pub priority: Option<i64>,
    pub estimate: Option<i64>,
    pub state_id: Option<String>,
    pub parent: ParentChange,
    /// The full new set of labels.
    pub label_ids: Option<Vec<String>>,
    /// Labels to add to the existing ones.
    pub added_label_ids: Option<Vec<String>>,
    /// Labels to remove from the existing ones.
    pub removed_label_ids: Option<Vec<String>>,
    pub project_id: Option<String>,
    pub cycle_id: Option<String>,
}

// ── Mathematical views ───────────────────────────────────────────────────────

/// The text of an optional string.
pub open spec fn opt_text(o: Option<String>) -> Option<Seq<char>> {
    match o {
        Some(s) => Some(s@),
        None => None,
    }
}

/// The texts of an optional list of strings.
pub open spec fn opt_texts(o: Option<Vec<String>>) -> Option<Seq<Seq<char>>> {
    match o {
        Some(v) => Some(texts_of(v@)),
        None => None,
    }
}

pub enum StateFilterView {
    TypeNotIn(Seq<Seq<char>>),
    NameIn(Seq<Seq<char>>),
}

pub struct IssueFilterView {
    pub state: Option<StateFilterView>,
    pub team_id: Option<Seq<char>>,
    pub assignee_id: Option<Seq<char>>,
    pub project_id: Option<Seq<char>>,
}

pub struct IssueCreateView {
    pub title: Option<Seq<char>>,
    pub team_id: Option<Seq<char>>,
    pub assignee_id: Option<Seq<char>>,
    pub label_ids: Option<Seq<Seq<char>>>,
    pub priority: Option<i64>,
    pub estimate: Option<i64>,
    pub description: Option<Seq<char>>,
    pub parent_id: Option<Seq<char>>,
    pub state_id: Option<Seq<char>>,
    pub project_id: Option<Seq<char>>,
    pub cycle_id: Option<Seq<char>>,
}

pub enum ParentChangeView {
    Keep,
    SetTo(Seq<char>),
    Clear,
}

pub struct IssueUpdateView {
    pub title: Option<Seq<char>>,
    pub description: Option<Seq<char>>,
    pub assignee_id: Option<Seq<char>>,
    pub priority: Option<i64>,
    pub estimate: Option<i64>,
    pub state_id: Option<Seq<char>>,
    pub parent: ParentChangeView,
    pub label_ids: Option<Seq<Seq<char>>>,
    pub added_label_ids: Option<Seq<Seq<char>>>,
    pub removed_label_ids: Option<Seq<Seq<char>>>,
    pub project_id: Option<Seq<char>>,
    pub cycle_id: Option<Seq<char>>,
}

impl View for StateFilter {
    type V = StateFilterView;

    open spec fn view(&self) -> StateFilterView {
        match self {
            StateFilter::TypeNotIn(v) => StateFilterView::TypeNotIn(texts_of(v@)),
            StateFilter::NameIn(v) => StateFilterView::NameIn(texts_of(v@)),
        }
    }
}

impl View for IssueFilter {
    type V = IssueFilterView;

    open spec fn view(&self) -> IssueFilterView {
        IssueFilterView {
            state: match self.state {
                Some(s) => Some(s@),
                None => None,
            },
            team_id: opt_text(self.team_id),
            assignee_id: opt_text(self.assignee_id),
            project_id: opt_text(self.project_id),
        }
    }
}

impl View for IssueCreateInput {
    type V = IssueCreateView;

    open spec fn view(&self) -> IssueCreateView {
        IssueCreateView {
            title: opt_text(self.title),
            team_id: opt_text(self.team_id),
            assignee_id: opt_text(self.assignee_id),
            label_ids: opt_texts(self.label_ids),
            priority: self.priority,
            estimate: self.estimate,
            description: opt_text(self.description),
            parent_id: opt_text(self.parent_id),
            state_id: opt_text(self.state_id),
            project_id: opt_text(self.project_id),
            cycle_id: opt_text(self.cycle_id),
        }
    }
}

impl View for ParentChange {
    type V = ParentChangeView;

    open spec fn view(&self) -> ParentChangeView {
        match self {
            ParentChange::Keep => ParentChangeView::Keep,
            ParentChange::SetTo(id) => ParentChangeView::SetTo(id@),
            ParentChange::Clear => ParentChangeView::Clear,
        }
    }
}

impl View for IssueUpdateInput {
    type V = IssueUpdateView;

    open spec fn view(&self) -> IssueUpdateView {
        IssueUpdateView {
            title: opt_text(self.title),
            description: opt_text(self.description),
            assignee_id: opt_text(self.assignee_id),
            priority: self.priority,
            estimate: self.estimate,
            state_id: opt_text(self.state_id),
            parent: self.parent@,
            label_ids: opt_texts(self.label_ids),
            added_label_ids: opt_texts(self.added_label_ids),
            removed_label_ids: opt_texts(self.removed_label_ids),
            project_id: opt_text(self.project_id),
            cycle_id: opt_text(self.cycle_id),
        }
    }
}

// ── Decisions of `issues update` ─────────────────────────────────────────────

impl IssuesAction {
    /// An update that names nothing to change: no field is given and neither
    /// `--clear-labels` nor `--clear-parent` is set.
    pub open spec fn changes_nothing(self) -> bool {
        match self {
            IssuesAction::Update {
                status,
                priority,
                estimate,
                labels,
                clear_labels,
                assignee,
                parent,
                clear_parent,
                title,
                description,
                project,
                cycle,
                ..
            } => {
                &&& status is None
                &&& priority is None
                &&& estimate is None
                &&& labels is None
                &&& !clear_labels
                &&& assignee is None
                &&& parent is None
                &&& !clear_parent
                &&& title is None
                &&& description is None
                &&& project is None
                &&& cycle is None
            },
            _ => false,
        }
    }

    /// Whether this is an update that names nothing to change.
    pub fn is_empty_update(&self) -> (r: bool)
        ensures
            r == self.changes_nothing(),
    {
        match self {
            IssuesAction::Update {
                status,
                priority,
                estimate,
                labels,
                clear_labels,
                assignee,
                parent,
                clear_parent,
                title,
                description,
                project,
                cycle,
                ..
            } => status.is_none() && priority.is_none() && estimate.is_none() && labels.is_none()
                && !*clear_labels && assignee.is_none() && parent.is_none() && !*clear_parent
                && title.is_none() && description.is_none() && project.is_none() && cycle.is_none(),
            _ => false,
        }
    }
}

/// The three label fields of an update: with `--clear-labels` the label set
/// becomes empty; else the resolved labels replace, extend or shrink the
/// existing ones as `mode` says; with neither, labels stay as they are.
pub open spec fn label_fields_spec(
    clear_labels: bool,
    resolved: Option<Seq<Seq<char>>>,
    mode: LabelMode,
) -> (Option<Seq<Seq<char>>>, Option<Seq<Seq<char>>>, Option<Seq<Seq<char>>>) {
    if clear_labels {
        (Some(Seq::empty()), None, None)
    } else {
        match resolved {
            Some(ids) => match mode {
                LabelMode::Replacing => (Some(ids), None, None),
                LabelMode::Adding => (None, Some(ids), None),
                LabelMode::Removing => (None, None, Some(ids)),
            },
            None => (None, None, None),
        }
    }
}

/// The label fields of an update (see [`label_fields_spec`]).
pub fn label_fields(clear_labels: bool, resolved: Option<Vec<String>>, mode: LabelMode) -> (r: (
    Option<Vec<String>>,
    Option<Vec<String>>,
    Option<Vec<String>>,
))
    ensures
        (opt_texts(r.0), opt_texts(r.1), opt_texts(r.2)) == label_fields_spec(
            clear_labels,
            opt_texts(resolved),
            mode,
        ),
{
    if clear_labels {
        let empty: Vec<String> = Vec::new();
        proof {
            assert(texts_of(empty@) =~= Seq::<Seq<char>>::empty());
        }
        (Some(empty), None, None)
    } else {
        match resolved {
            Some(ids) => match mode {
                LabelMode::Replacing => (Some(ids), None, None),
                LabelMode::Adding => (None, Some(ids), None),
                LabelMode::Removing => (None, None, Some(ids)),
            },
            None => (None, None, None),
        }
    }
}

/// What an update sends for the parent: null with `--clear-parent`, else the
/// resolved parent if one was given, else nothing.
pub open spec fn parent_change_spec(clear_parent: bool, parent_id: Option<Seq<char>>) -> ParentChangeView {
    if clear_parent {
        ParentChangeView::Clear
    } else {
        match parent_id {
            Some(id) => ParentChangeView::SetTo(id),
            None => ParentChangeView::Keep,
        }
    }
}

/// What an update sends for the parent (see [`parent_change_spec`]).
pub fn parent_change(clear_parent: bool, parent_id: Option<String>) -> (r: ParentChange)
    ensures
        r@ == parent_change_spec(clear_parent, opt_text(parent_id)),
{
    if clear_parent {
        ParentChange::Clear
    } else {
        match parent_id {
            Some(id) => ParentChange::SetTo(id),
            None => ParentChange::Keep,
        }
    }
}

} // verus!
