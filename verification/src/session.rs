//! One run of an `issues` command, as a machine that the caller drives: it
//! names the next request, takes the reply, and decides, until the command
//! succeeds or fails. All the command's decisions are here; the caller only
//! performs the requests.

use vstd::prelude::*;

use crate::command::{
    label_fields, label_fields_spec, opt_text, opt_texts, parent_change, parent_change_spec,
    IssueCreateInput, IssueCreateView, IssueFilter, IssueFilterView, IssueUpdateInput,
    IssueUpdateView, IssuesAction, IssuesCmd, StateFilter, StateFilterView,
};
use crate::errors::{ErrorView, IssuesError};
use crate::lookup::{find_hit_id, hit_lookup, is_uuid, is_uuid_text, present_names, select_state_id, state_lookup};
use crate::model::{copy_text, team_id_of, IssueDetail, IssueSummary, SearchSummary};
use crate::protocol::{answers, reply_answers, Outcome, Reply, Request, RequestView, Step, StepView};
use crate::rows::{filter_done_search, issue_rows, search_rows, shown_hits, IssueRow};
use crate::text::{str_contains_char, texts_of};

verus! {

/// How many hits the identifier search keeps.
pub const FIND_ISSUE_HITS: i64 = 5;

/// How many workflow states of a team are fetched to find one by name.
pub const WORKFLOW_STATES_FETCHED: i64 = 50;

/// A command in progress: the command, and what it has learned so far.
pub struct IssuesRun {
    action: IssuesAction,
    team_id: Option<String>,
    viewer_id: Option<String>,
    assignee_id: Option<String>,
    label_ids: Option<Vec<String>>,
    state_id: Option<String>,
    issue_id: Option<String>,
    parent_id: Option<String>,
    project_id: Option<String>,
    cycle_id: Option<String>,
    found_id: Option<String>,
    detail: Option<IssueDetail>,
    finished: bool,
}

/// A command in progress, with texts for strings.
pub struct RunView {
    pub action: IssuesAction,
    /// The id of the team named on the command line.
    pub team_id: Option<Seq<char>>,
    /// The authenticated user's id (`issues list --mine`).
    pub viewer_id: Option<Seq<char>>,
    /// The id of the assignee named on the command line.
    pub assignee_id: Option<Seq<char>>,
    /// The ids of the labels named on the command line.
    pub label_ids: Option<Seq<Seq<char>>>,
    /// The id of the workflow state named on the command line.
    pub state_id: Option<Seq<char>>,
    /// The id of the issue acted on.
    pub issue_id: Option<Seq<char>>,
    /// The id of the parent issue named on the command line.
    pub parent_id: Option<Seq<char>>,
    pub project_id: Option<Seq<char>>,
    pub cycle_id: Option<Seq<char>>,
    /// The id that the identifier search found for the issue to read.
    pub found_id: Option<Seq<char>>,
    /// The issue read (`issues update` reads it to learn its team).
    pub detail: Option<IssueDetail>,
    /// The command has succeeded or failed.
    pub finished: bool,
}

impl View for IssuesRun {
    type V = RunView;

    closed spec fn view(&self) -> RunView {
        RunView {
            action: self.action,
            team_id: opt_text(self.team_id),
            viewer_id: opt_text(self.viewer_id),
            assignee_id: opt_text(self.assignee_id),
            label_ids: opt_texts(self.label_ids),
            state_id: opt_text(self.state_id),
            issue_id: opt_text(self.issue_id),
            parent_id: opt_text(self.parent_id),
            project_id: opt_text(self.project_id),
            cycle_id: opt_text(self.cycle_id),
            found_id: opt_text(self.found_id),
            detail: self.detail,
            finished: self.finished,
        }
    }
}

// ── The protocol, stated ─────────────────────────────────────────────────────

/// A command that has learned nothing yet.
pub open spec fn initial(action: IssuesAction) -> RunView {
    RunView {
        action,
        team_id: None,
        viewer_id: None,
        assignee_id: None,
        label_ids: None,
        state_id: None,
        issue_id: None,
        parent_id: None,
        project_id: None,
        cycle_id: None,
        found_id: None,
        detail: None,
        finished: false,
    }
}

/// The request that reads the issue named by `identifier`: a UUID, or a text
/// without a hyphen, is fetched directly; any other text is first searched
/// for, and the issue is fetched by the id the search found.
pub open spec fn read_demand(v: RunView, identifier: Seq<char>) -> RequestView {
    if is_uuid_text(identifier) || !identifier.contains('-') {
        RequestView::FetchIssue { id: identifier }
    } else {
        match v.found_id {
            None => RequestView::FindIssue { query: identifier, first: FIND_ISSUE_HITS },
            Some(id) => RequestView::FetchIssue { id },
        }
    }
}

/// The state types that `issues list` hides unless `--show-done`.
pub open spec fn done_state_types() -> Seq<Seq<char>> {
    seq!["completed"@, "canceled"@]
}

/// The filter of `issues list`: finished issues are hidden unless
/// `show_done`; the team, the project and the assignee are those resolved,
/// if any.
pub open spec fn list_filter(
    show_done: bool,
    team_id: Option<Seq<char>>,
    project_id: Option<Seq<char>>,
    viewer_id: Option<Seq<char>>,
) -> IssueFilterView {
    IssueFilterView {
        state: if show_done {
            None
        } else {
            Some(StateFilterView::TypeNotIn(done_state_types()))
        },
        team_id,
        assignee_id: viewer_id,
        project_id,
    }
}

/// The filter of `issues search`: the assignee and the state names, when
/// either is given; no filter at all otherwise.
pub open spec fn search_filter(assignee_id: Option<Seq<char>>, status: Option<Seq<Seq<char>>>) -> Option<IssueFilterView> {
    if assignee_id is None && status is None {
        None
    } else {
        Some(IssueFilterView {
            state: match status {
                Some(names) => Some(StateFilterView::NameIn(names)),
                None => None,
            },
            team_id: None,
            assignee_id,
            project_id: None,
        })
    }
}

/// The team of the issue being updated, once it has been read.
pub open spec fn update_team(v: RunView) -> Option<Seq<char>> {
    match v.detail {
        Some(d) => opt_text(team_id_of(d.team)),
        None => None,
    }
}

/// What the command needs next, or why it cannot go on. Each command
/// resolves, in order, what its arguments name and it has not resolved yet,
/// then makes its one final request.
pub open spec fn demand(v: RunView) -> Result<RequestView, ErrorView> {
    match v.action {
        IssuesAction::List { limit, team, project, mine, show_done } => {
            if team is Some && v.team_id is None {
                Ok(RequestView::ResolveTeam { key: team->0@ })
            } else if project is Some && v.project_id is None {
                Ok(RequestView::ResolveProject { name: project->0@ })
            } else if mine && v.viewer_id is None {
                Ok(RequestView::WhoAmI)
            } else {
                Ok(RequestView::ListIssues {
                    filter: list_filter(show_done, v.team_id, v.project_id, v.viewer_id),
                    first: limit,
                })
            }
        },
        IssuesAction::Read { identifier } => Ok(read_demand(v, identifier@)),
        IssuesAction::Search { query, limit, team, assignee, status, .. } => {
            if team is Some && v.team_id is None {
                Ok(RequestView::ResolveTeam { key: team->0@ })
            } else if assignee is Some && v.assignee_id is None {
                Ok(RequestView::ResolveAssignee { name: assignee->0@ })
            } else {
                Ok(RequestView::SearchIssues {
                    query: query@,
                    first: limit,
                    team_id: v.team_id,
                    filter: search_filter(v.assignee_id, opt_texts(status)),
                })
            }
        },
        IssuesAction::Create {
            title,
            team,
            assignee,
            labels,
            priority,
            estimate,
            description,
            parent,
            status,
            project,
            cycle,
        } => match v.team_id {
            None => Ok(RequestView::ResolveTeam { key: team@ }),
            Some(tid) => {
                if assignee is Some && v.assignee_id is None {
                    Ok(RequestView::ResolveAssignee { name: assignee->0@ })
                } else if labels is Some && v.label_ids is None {
                    Ok(RequestView::ResolveLabels { names: texts_of(labels->0@), team_id: Some(tid) })
                } else if status is Some && v.state_id is None {
                    Ok(RequestView::WorkflowStates { team_id: tid, first: WORKFLOW_STATES_FETCHED })
                } else if parent is Some && v.parent_id is None {
                    Ok(RequestView::ResolveParent { identifier: parent->0@ })
                } else if project is Some && v.project_id is None {
                    Ok(RequestView::ResolveProject { name: project->0@ })
                } else if cycle is Some && v.cycle_id is None {
                    Ok(RequestView::ResolveCycle { name: cycle->0@, team_id: tid })
                } else {
                    Ok(RequestView::CreateIssue {
                        input: IssueCreateView {
                            title: Some(title@),
                            team_id: Some(tid),
                            assignee_id: v.assignee_id,
                            label_ids: v.label_ids,
                            priority,
                            estimate,
                            description: opt_text(description),
                            parent_id: v.parent_id,
                            state_id: v.state_id,
                            project_id: v.project_id,
                            cycle_id: v.cycle_id,
                        },
                    })
                }
            },
        },
        IssuesAction::Archive { identifier } => match v.issue_id {
            None => Ok(RequestView::ResolveIssue { identifier: identifier@ }),
            Some(id) => Ok(RequestView::ArchiveIssue { id }),
        },
        IssuesAction::Unarchive { identifier } => match v.issue_id {
            None => Ok(RequestView::ResolveIssue { identifier: identifier@ }),
            Some(id) => Ok(RequestView::UnarchiveIssue { id }),
        },
        IssuesAction::Delete { identifier, permanently } => match v.issue_id {
            None => Ok(RequestView::ResolveIssue { identifier: identifier@ }),
            Some(id) => Ok(RequestView::DeleteIssue {
                id,
                permanently: if permanently {
                    Some(true)
                } else {
                    None
                },
            }),
        },
        IssuesAction::Update {
            identifier,
            status,
            priority,
            estimate,
            labels,
            label_by,
            clear_labels,
            assignee,
            parent,
            clear_parent,
            title,
            description,
            project,
            cycle,
        } => {
            if v.action.changes_nothing() {
                Err(ErrorView::NoUpdateFields)
            } else {
                match v.issue_id {
                    None => Ok(RequestView::ResolveIssue { identifier: identifier@ }),
                    Some(iid) => {
                        let needs_team = status is Some || labels is Some || cycle is Some;
                        let team = update_team(v);
                        if needs_team && v.detail is None {
                            Ok(read_demand(v, identifier@))
                        } else if status is Some && v.state_id is None {
                            match team {
                                None => Err(ErrorView::TeamUnknown(identifier@)),
                                Some(t) => Ok(RequestView::WorkflowStates { team_id: t, first: WORKFLOW_STATES_FETCHED }),
                            }
                        } else if assignee is Some && v.assignee_id is None {
                            Ok(RequestView::ResolveAssignee { name: assignee->0@ })
                        } else if parent is Some && v.parent_id is None {
                            Ok(RequestView::ResolveParent { identifier: parent->0@ })
                        } else if project is Some && v.project_id is None {
                            Ok(RequestView::ResolveProject { name: project->0@ })
                        } else if cycle is Some && v.cycle_id is None {
                            match team {
                                None => Err(ErrorView::TeamUnknown(identifier@)),
                                Some(t) => Ok(RequestView::ResolveCycle { name: cycle->0@, team_id: t }),
                            }
                        } else if !clear_labels && labels is Some && v.label_ids is None {
                            Ok(RequestView::ResolveLabels { names: texts_of(labels->0@), team_id: team })
                        } else {
                            let fields = label_fields_spec(clear_labels, v.label_ids, label_by);
                            Ok(RequestView::UpdateIssue {
                                id: iid,
                                input: IssueUpdateView {
                                    title: opt_text(title),
                                    description: opt_text(description),
                                    assignee_id: v.assignee_id,
                                    priority,
                                    estimate,
                                    state_id: v.state_id,
                                    parent: parent_change_spec(clear_parent, v.parent_id),
                                    label_ids: fields.0,
                                    added_label_ids: fields.1,
                                    removed_label_ids: fields.2,
                                    project_id: v.project_id,
                                    cycle_id: v.cycle_id,
                                },
                            })
                        }
                    },
                }
            }
        },
    }
}

/// The run after it has succeeded or failed.
pub open spec fn finish(v: RunView) -> RunView {
    RunView { finished: true, ..v }
}

/// The step a run takes on its own: the request it needs, or the failure
/// that stops it.
pub open spec fn settle(v: RunView) -> (RunView, StepView) {
    match demand(v) {
        Ok(r) => (v, StepView::Call(r)),
        Err(e) => (finish(v), StepView::Fail(e)),
    }
}

/// The run with a resolved id stored where the pending resolution puts it.
pub open spec fn fill_resolved(v: RunView, id: Seq<char>) -> RunView {
    match demand(v) {
        Ok(RequestView::ResolveTeam { .. }) => RunView { team_id: Some(id), ..v },
        Ok(RequestView::ResolveAssignee { .. }) => RunView { assignee_id: Some(id), ..v },
        Ok(RequestView::ResolveIssue { .. }) => RunView { issue_id: Some(id), ..v },
        Ok(RequestView::ResolveParent { .. }) => RunView { parent_id: Some(id), ..v },
        Ok(RequestView::ResolveProject { .. }) => RunView { project_id: Some(id), ..v },
        Ok(RequestView::ResolveCycle { .. }) => RunView { cycle_id: Some(id), ..v },
        _ => v,
    }
}

/// The identifier of the issue a command reads.
pub open spec fn target_identifier(a: IssuesAction) -> Seq<char> {
    match a {
        IssuesAction::Read { identifier } => identifier@,
        IssuesAction::Update { identifier, .. } => identifier@,
        _ => Seq::empty(),
    }
}

/// The workflow state name a command sets.
pub open spec fn status_name(a: IssuesAction) -> Seq<char> {
    match a {
        IssuesAction::Create { status: Some(s), .. } => s@,
        IssuesAction::Update { status: Some(s), .. } => s@,
        _ => Seq::empty(),
    }
}

/// Whether `issues search` shows finished issues.
pub open spec fn search_shows_done(a: IssuesAction) -> bool {
    match a {
        IssuesAction::Search { show_done, .. } => show_done,
        _ => true,
    }
}

/// Whether the run waits for a reply that `reply` can be.
pub open spec fn awaits(v: RunView, reply: Reply) -> bool {
    &&& !v.finished
    &&& demand(v) is Ok
    &&& answers(demand(v)->Ok_0, reply)
}

/// What the run does with a reply: a failure of the request ends it with
/// that message; a list, a search, a mutation, or the issue `issues read`
/// asked for ends it with what to show; anything else is learned, and the
/// run goes on (see [`settle`]), unless the user is unknown, no issue
/// carries the identifier, or the team has no state of the name given.
pub open spec fn on_reply(v: RunView, reply: Reply) -> (RunView, StepView) {
    match reply {
        Reply::Failed(m) => (finish(v), StepView::Fail(ErrorView::Api(m@))),
        Reply::Listed(items) => (finish(v), StepView::Rows(items@.map_values(|i: IssueSummary| i.row_view()))),
        Reply::Searched(items) => (
            finish(v),
            StepView::Rows(
                shown_hits(items@, search_shows_done(v.action)).map_values(
                    |s: SearchSummary| s.row_view(),
                ),
            ),
        ),
        Reply::Mutated(r) => (finish(v), StepView::Issue(r)),
        Reply::Issue(d) => if v.action is Read {
            (finish(v), StepView::Detail(d))
        } else {
            settle(RunView { detail: Some(d), ..v })
        },
        Reply::Viewer(o) => match o {
            None => (finish(v), StepView::Fail(ErrorView::NoViewerId)),
            Some(id) => settle(RunView { viewer_id: Some(id@), ..v }),
        },
        Reply::Resolved(id) => settle(fill_resolved(v, id@)),
        Reply::ResolvedLabels(ids) => settle(RunView { label_ids: Some(texts_of(ids@)), ..v }),
        Reply::WorkflowStates(nodes) => match state_lookup(nodes@, status_name(v.action)) {
            Some(id) => settle(RunView { state_id: Some(id), ..v }),
            None => (
                finish(v),
                StepView::Fail(
                    ErrorView::StatusNotFound {
                        name: status_name(v.action),
                        available: texts_of(present_names(nodes@)),
                    },
                ),
            ),
        },
        Reply::Found(hits) => match hit_lookup(hits@, target_identifier(v.action)) {
            Some(id) => settle(RunView { found_id: Some(id), ..v }),
            None => (finish(v), StepView::Fail(ErrorView::IssueNotFound(target_identifier(v.action)))),
        },
    }
}

pub open spec fn demand_view(d: Result<Request, IssuesError>) -> Result<RequestView, ErrorView> {
    match d {
        Ok(r) => Ok(r@),
        Err(e) => Err(e@),
    }
}

// ── The protocol, run ────────────────────────────────────────────────────────

fn copy_texts(v: &Vec<String>) -> (r: Vec<String>)
    ensures
        r@ == v@,
{
    let r = v.clone();
    proof {
        assert(r@ =~= v@);
    }
    r
}

fn copy_opt_texts(o: &Option<Vec<String>>) -> (r: Option<Vec<String>>)
    ensures
        opt_texts(r) == opt_texts(*o),
{
    match o {
        Some(v) => Some(copy_texts(v)),
        None => None,
    }
}

impl IssuesRun {
    fn read_request(&self, identifier: &String) -> (r: Request)
        ensures
            r@ == read_demand(self@, identifier@),
    {
        if is_uuid(identifier.as_str()) || !str_contains_char(identifier.as_str(), '-') {
            Request::FetchIssue { id: identifier.clone() }
        } else {
            match &self.found_id {
                None => Request::FindIssue { query: identifier.clone(), first: FIND_ISSUE_HITS },
                Some(id) => Request::FetchIssue { id: id.clone() },
            }
        }
    }

    fn list_request(&self, limit: i64, show_done: bool) -> (r: Request)
        ensures
            r@ == (RequestView::ListIssues {
                filter: list_filter(show_done, self@.team_id, self@.project_id, self@.viewer_id),
                first: limit,
            }),
    {
        let state = if show_done {
            None
        } else {
            let mut types: Vec<String> = Vec::new();
            types.push(String::from_str("completed"));
            types.push(String::from_str("canceled"));
            proof {
                assert(texts_of(types@) =~= done_state_types());
            }
            Some(StateFilter::TypeNotIn(types))
        };
        Request::ListIssues {
            filter: IssueFilter {
                state,
                team_id: copy_text(&self.team_id),
                assignee_id: copy_text(&self.viewer_id),
                project_id: copy_text(&self.project_id),
            },
            first: limit,
        }
    }

    fn search_request(&self, query: &String, limit: i64, status: &Option<Vec<String>>) -> (r: Request)
        ensures
            r@ == (RequestView::SearchIssues {
                query: query@,
                first: limit,
                team_id: self@.team_id,
                filter: search_filter(self@.assignee_id, opt_texts(*status)),
            }),
    {
        let filter = if self.assignee_id.is_none() && status.is_none() {
            None
        } else {
            let state = match status {
                Some(names) => Some(StateFilter::NameIn(copy_texts(names))),
                None => None,
            };
            Some(IssueFilter {
                state,
                team_id: None,
                assignee_id: copy_text(&self.assignee_id),
                project_id: None,
            })
        };
        Request::SearchIssues {
            query: query.clone(),
            first: limit,
            team_id: copy_text(&self.team_id),
            filter,
        }
    }

    fn create_request(&self) -> (r: Result<Request, IssuesError>)
        requires
            self@.action is Create,
        ensures
            demand_view(r) == demand(self@),
    {
        match &self.action {
            IssuesAction::Create {
                title,
                team,
                assignee,
                labels,
                priority,
                estimate,
                description,
                parent,
                status,
                project,
                cycle,
            } => match &self.team_id {
                None => Ok(Request::ResolveTeam { key: team.clone() }),
                Some(tid) => {
                    if assignee.is_some() && self.assignee_id.is_none() {
                        Ok(Request::ResolveAssignee { name: assignee.clone().unwrap() })
                    } else if labels.is_some() && self.label_ids.is_none() {
                        let names = copy_texts(labels.as_ref().unwrap());
                        Ok(Request::ResolveLabels { names, team_id: Some(tid.clone()) })
                    } else if status.is_some() && self.state_id.is_none() {
                        Ok(Request::WorkflowStates { team_id: tid.clone(), first: WORKFLOW_STATES_FETCHED })
                    } else if parent.is_some() && self.parent_id.is_none() {
                        Ok(Request::ResolveParent { identifier: parent.clone().unwrap() })
                    } else if project.is_some() && self.project_id.is_none() {
                        Ok(Request::ResolveProject { name: project.clone().unwrap() })
                    } else if cycle.is_some() && self.cycle_id.is_none() {
                        Ok(Request::ResolveCycle { name: cycle.clone().unwrap(), team_id: tid.clone() })
                    } else {
                        Ok(Request::CreateIssue {
                            input: IssueCreateInput {
                                title: Some(title.clone()),
                                team_id: Some(tid.clone()),
                                assignee_id: copy_text(&self.assignee_id),
                                label_ids: copy_opt_texts(&self.label_ids),
                                priority: *priority,
                                estimate: *estimate,
                                description: copy_text(description),
                                parent_id: copy_text(&self.parent_id),
                                state_id: copy_text(&self.state_id),
                                project_id: copy_text(&self.project_id),
                                cycle_id: copy_text(&self.cycle_id),
                            },
                        })
                    }
                },
            },
            _ => unreached(),
        }
    }

    fn update_team_id(&self) -> (r: Option<String>)
        ensures
            opt_text(r) == update_team(self@),
    {
        match &self.detail {
            Some(d) => match &d.team {
                Some(t) => copy_text(&t.id),
                None => None,
            },
            None => None,
        }
    }

    fn update_request(&self) -> (r: Result<Request, IssuesError>)
        requires
            self@.action is Update,
        ensures
            demand_view(r) == demand(self@),
    {
        if self.action.is_empty_update() {
            return Err(IssuesError::NoUpdateFields);
        }
        match &self.action {
            IssuesAction::Update {
                identifier,
                status,
                priority,
                estimate,
                labels,
                label_by,
                clear_labels,
                assignee,
                parent,
                clear_parent,
                title,
                description,
                project,
                cycle,
            } => match &self.issue_id {
                None => Ok(Request::ResolveIssue { identifier: identifier.clone() }),
                Some(iid) => {
                    let needs_team = status.is_some() || labels.is_some() || cycle.is_some();
                    let team = self.update_team_id();
                    if needs_team && self.detail.is_none() {
                        Ok(self.read_request(identifier))
                    } else if status.is_some() && self.state_id.is_none() {
                        match team {
                            None => Err(IssuesError::TeamUnknown(identifier.clone())),
                            Some(t) => Ok(Request::WorkflowStates { team_id: t, first: WORKFLOW_STATES_FETCHED }),
                        }
                    } else if assignee.is_some() && self.assignee_id.is_none() {
                        Ok(Request::ResolveAssignee { name: assignee.clone().unwrap() })
                    } else if parent.is_some() && self.parent_id.is_none() {
                        Ok(Request::ResolveParent { identifier: parent.clone().unwrap() })
                    } else if project.is_some() && self.project_id.is_none() {
                        Ok(Request::ResolveProject { name: project.clone().unwrap() })
                    } else if cycle.is_some() && self.cycle_id.is_none() {
                        match team {
                            None => Err(IssuesError::TeamUnknown(identifier.clone())),
                            Some(t) => Ok(Request::ResolveCycle { name: cycle.clone().unwrap(), team_id: t }),
                        }
                    } else if !*clear_labels && labels.is_some() && self.label_ids.is_none() {
                        let names = copy_texts(labels.as_ref().unwrap());
                        Ok(Request::ResolveLabels { names, team_id: team })
                    } else {
                        let (label_ids, added_label_ids, removed_label_ids) = label_fields(
                            *clear_labels,
                            copy_opt_texts(&self.label_ids),
                            *label_by,
                        );
                        Ok(Request::UpdateIssue {
                            id: iid.clone(),
                            input: IssueUpdateInput {
                                title: copy_text(title),
                                description: copy_text(description),
                                assignee_id: copy_text(&self.assignee_id),
                                priority: *priority,
                                estimate: *estimate,
                                state_id: copy_text(&self.state_id),
                                parent: parent_change(*clear_parent, copy_text(&self.parent_id)),
                                label_ids,
                                added_label_ids,
                                removed_label_ids,
                                project_id: copy_text(&self.project_id),
                                cycle_id: copy_text(&self.cycle_id),
                            },
                        })
                    }
                },
            },
            _ => unreached(),
        }
    }

    /// What the command needs next, or why it cannot go on.
    fn demand(&self) -> (r: Result<Request, IssuesError>)
        ensures
            demand_view(r) == demand(self@),
    {
        match &self.action {
            IssuesAction::List { limit, team, project, mine, show_done } => {
                if team.is_some() && self.team_id.is_none() {
                    Ok(Request::ResolveTeam { key: team.clone().unwrap() })
                } else if project.is_some() && self.project_id.is_none() {
                    Ok(Request::ResolveProject { name: project.clone().unwrap() })
                } else if *mine && self.viewer_id.is_none() {
                    Ok(Request::WhoAmI)
                } else {
                    Ok(self.list_request(*limit, *show_done))
                }
            },
            IssuesAction::Read { identifier } => Ok(self.read_request(identifier)),
            IssuesAction::Search { query, limit, team, assignee, status, .. } => {
                if team.is_some() && self.team_id.is_none() {
                    Ok(Request::ResolveTeam { key: team.clone().unwrap() })
                } else if assignee.is_some() && self.assignee_id.is_none() {
                    Ok(Request::ResolveAssignee { name: assignee.clone().unwrap() })
                } else {
                    Ok(self.search_request(query, *limit, status))
                }
            },
            IssuesAction::Create { .. } => self.create_request(),
            IssuesAction::Archive { identifier } => match &self.issue_id {
                None => Ok(Request::ResolveIssue { identifier: identifier.clone() }),
                Some(id) => Ok(Request::ArchiveIssue { id: id.clone() }),
            },
            IssuesAction::Unarchive { identifier } => match &self.issue_id {
                None => Ok(Request::ResolveIssue { identifier: identifier.clone() }),
                Some(id) => Ok(Request::UnarchiveIssue { id: id.clone() }),
            },
            IssuesAction::Delete { identifier, permanently } => match &self.issue_id {
                None => Ok(Request::ResolveIssue { identifier: identifier.clone() }),
                Some(id) => Ok(Request::DeleteIssue {
                    id: id.clone(),
                    permanently: if *permanently {
                        Some(true)
                    } else {
                        None
                    },
                }),
            },
            IssuesAction::Update { .. } => self.update_request(),
        }
    }
}

impl IssuesRun {
    fn settle_now(&mut self) -> (s: Step)
        requires
            !old(self)@.finished,
        ensures
            (final(self)@, s@) == settle(old(self)@),
    {
        match self.demand() {
            Ok(r) => Step::Call(r),
            Err(e) => {
                self.finished = true;
                Step::Fail(e)
            },
        }
    }

    fn end(&mut self, s: Step) -> (r: Step)
        ensures
            final(self)@ == finish(old(self)@),
            r == s,
    {
        self.finished = true;
        s
    }

    /// Begins a command: the run, and its first step.
    pub fn start(cmd: IssuesCmd) -> (r: (IssuesRun, Step))
        ensures
            (r.0@, r.1@) == settle(initial(cmd.action)),
    {
        let mut run = IssuesRun {
            action: cmd.action,
            team_id: None,
            viewer_id: None,
            assignee_id: None,
            label_ids: None,
            state_id: None,
            issue_id: None,
            parent_id: None,
            project_id: None,
            cycle_id: None,
            found_id: None,
            detail: None,
            finished: false,
        };
        assert(run@ == initial(cmd.action));
        let s = run.settle_now();
        (run, s)
    }

    /// Whether the run waits for a reply that `reply` can be.
    pub fn awaits(&self, reply: &Reply) -> (r: bool)
        ensures
            r == awaits(self@, *reply),
    {
        if self.finished {
            return false;
        }
        match self.demand() {
            Ok(req) => reply_answers(&req, reply),
            Err(_) => false,
        }
    }

    /// Whether the command has succeeded or failed.
    pub fn is_finished(&self) -> (r: bool)
        ensures
            r == self@.finished,
    {
        self.finished
    }

    /// Takes the reply to the pending request and returns the next step.
    pub fn resume(&mut self, reply: Reply) -> (s: Step)
        requires
            awaits(old(self)@, reply),
        ensures
            (final(self)@, s@) == on_reply(old(self)@, reply),
    {
        let pending = self.demand();
        match reply {
            Reply::Failed(m) => self.end(Step::Fail(IssuesError::Api(m))),
            Reply::Listed(items) => {
                let rows = issue_rows(&items);
                proof {
                    assert(rows@.map_values(|r: IssueRow| r@) =~= items@.map_values(
                        |i: IssueSummary| i.row_view(),
                    ));
                }
                self.end(Step::Done(Outcome::Rows(rows)))
            },
            Reply::Searched(items) => {
                let show_done = match &self.action {
                    IssuesAction::Search { show_done, .. } => *show_done,
                    _ => true,
                };
                let kept = filter_done_search(&items, show_done);
                let rows = search_rows(&kept);
                proof {
                    let filtered = shown_hits(items@, show_done);
                    assert(kept@.map_values(|r: &SearchSummary| *r) == filtered);
                    assert forall|k: int| 0 <= k < filtered.len() implies #[trigger] filtered[k] == *kept@[k] by {
                        assert(kept@.map_values(|r: &SearchSummary| *r)[k] == *kept@[k]);
                    }
                    assert(rows@.map_values(|r: IssueRow| r@) =~= filtered.map_values(
                        |s: SearchSummary| s.row_view(),
                    ));
                }
                self.end(Step::Done(Outcome::Rows(rows)))
            },
            Reply::Mutated(r) => self.end(Step::Done(Outcome::Issue(r))),
            Reply::Issue(d) => {
                if matches!(self.action, IssuesAction::Read { .. }) {
                    self.end(Step::Done(Outcome::Detail(d)))
                } else {
                    self.detail = Some(d);
                    self.settle_now()
                }
            },
            Reply::Viewer(o) => match o {
                None => self.end(Step::Fail(IssuesError::NoViewerId)),
                Some(id) => {
                    self.viewer_id = Some(id);
                    self.settle_now()
                },
            },
            Reply::Resolved(id) => {
                match pending {
                    Ok(Request::ResolveTeam { .. }) => self.team_id = Some(id),
                    Ok(Request::ResolveAssignee { .. }) => self.assignee_id = Some(id),
                    Ok(Request::ResolveIssue { .. }) => self.issue_id = Some(id),
                    Ok(Request::ResolveParent { .. }) => self.parent_id = Some(id),
                    Ok(Request::ResolveProject { .. }) => self.project_id = Some(id),
                    Ok(Request::ResolveCycle { .. }) => self.cycle_id = Some(id),
                    _ => {},
                }
                self.settle_now()
            },
            Reply::ResolvedLabels(ids) => {
                self.label_ids = Some(ids);
                self.settle_now()
            },
            Reply::WorkflowStates(nodes) => {
                let name = match &self.action {
                    IssuesAction::Create { status: Some(s), .. } => s.clone(),
                    IssuesAction::Update { status: Some(s), .. } => s.clone(),
                    _ => String::new(),
                };
                match select_state_id(&nodes, name.as_str()) {
                    Ok(id) => {
                        self.state_id = Some(id);
                        self.settle_now()
                    },
                    Err(e) => self.end(Step::Fail(e)),
                }
            },
            Reply::Found(hits) => {
                let identifier = match &self.action {
                    IssuesAction::Read { identifier } => identifier.clone(),
                    IssuesAction::Update { identifier, .. } => identifier.clone(),
                    _ => String::new(),
                };
                match find_hit_id(&hits, identifier.as_str()) {
                    Ok(id) => {
                        self.found_id = Some(id);
                        self.settle_now()
                    },
                    Err(e) => self.end(Step::Fail(e)),
                }
            },
        }
    }
}

} // verus!
