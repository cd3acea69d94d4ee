//! The flattened table rows of `issues list` and `issues search`, and the
//! hiding of finished issues among search results.

use vstd::prelude::*;

use crate::model::{
    state_name_of, state_type_of, team_key_of, text_or_default, text_or_empty, user_name_of, IssueSummary,
    SearchSummary, StateRef,
};

verus! {

/// One row of an issue table: the columns shown, and the link kept for JSON output.
#[derive(Debug, Clone, PartialEq)]
pub struct IssueRow {
    pub identifier: String,
    pub title: String,
    pub priority_label: String,
    pub state: String,
    pub assignee: String,
    pub team: String,
    pub url: String,
}

/// The texts of a row.
pub struct RowView {
    pub identifier: Seq<char>,
    pub title: Seq<char>,
    pub priority_label: Seq<char>,
    pub state: Seq<char>,
    pub assignee: Seq<char>,
    pub team: Seq<char>,
    pub url: Seq<char>,
}

impl View for IssueRow {
    type V = RowView;

    open spec fn view(&self) -> RowView {
        RowView {
            identifier: self.identifier@,
            title: self.title@,
            priority_label: self.priority_label@,
            state: self.state@,
            assignee: self.assignee@,
            team: self.team@,
            url: self.url@,
        }
    }
}

impl IssueSummary {
    /// The row that shows this issue: each absent text becomes empty; the
    /// state column is the state's name, the assignee column the user's name,
    /// the team column the team's key.
    pub open spec fn row_view(self) -> RowView {
        RowView {
            identifier: text_or_empty(self.identifier),
            title: text_or_empty(self.title),
            priority_label: text_or_empty(self.priority_label),
            state: text_or_empty(state_name_of(self.state)),
            assignee: text_or_empty(user_name_of(self.assignee)),
            team: text_or_empty(team_key_of(self.team)),
            url: text_or_empty(self.url),
        }
    }
}

impl SearchSummary {
    /// The row that shows this search hit, as for an issue of a list.
    pub open spec fn row_view(self) -> RowView {
        RowView {
            identifier: text_or_empty(self.identifier),
            title: text_or_empty(self.title),
            priority_label: text_or_empty(self.priority_label),
            state: text_or_empty(state_name_of(self.state)),
            assignee: text_or_empty(user_name_of(self.assignee)),
            team: text_or_empty(team_key_of(self.team)),
            url: text_or_empty(self.url),
        }
    }

}

fn state_name_text(o: &Option<StateRef>) -> (r: String)
    ensures
        r@ == text_or_empty(state_name_of(*o)),
{
    match o {
        Some(s) => text_or_default(&s.name),
        None => String::new(),
    }
}

impl IssueRow {
    /// The row of an issue of `issues list`.
    pub fn from_summary(i: &IssueSummary) -> (row: IssueRow)
        ensures
            row@ == i.row_view(),
    {
        let assignee = match &i.assignee {
            Some(a) => text_or_default(&a.name),
            None => String::new(),
        };
        let team = match &i.team {
            Some(t) => text_or_default(&t.key),
            None => String::new(),
        };
        IssueRow {
            identifier: text_or_default(&i.identifier),
            title: text_or_default(&i.title),
            priority_label: text_or_default(&i.priority_label),
            state: state_name_text(&i.state),
            assignee,
            team,
            url: text_or_default(&i.url),
        }
    }

    /// The row of a hit of `issues search`.
    pub fn from_search(i: &SearchSummary) -> (row: IssueRow)
        ensures
            row@ == i.row_view(),
    {
        let assignee = match &i.assignee {
            Some(a) => text_or_default(&a.name),
            None => String::new(),
        };
        let team = match &i.team {
            Some(t) => text_or_default(&t.key),
            None => String::new(),
        };
        IssueRow {
            identifier: text_or_default(&i.identifier),
            title: text_or_default(&i.title),
            priority_label: text_or_default(&i.priority_label),
            state: state_name_text(&i.state),
            assignee,
            team,
            url: text_or_default(&i.url),
        }
    }
}

/// A workflow state type that marks an issue as finished: `completed` or
/// `canceled` (the types `issues list` excludes too).
pub open spec fn is_finished_type(t: Seq<char>) -> bool {
    t == "completed"@ || t == "canceled"@
}

impl SearchSummary {
    /// The hit's state is of a finished type. A hit without a state, or whose
    /// state has no type, is not finished.
    pub open spec fn is_finished(self) -> bool {
        match state_type_of(self.state) {
            Some(t) => is_finished_type(t@),
            None => false,
        }
    }
}

/// Whether a search hit is kept: all are kept with `show_done`, else those
/// whose state is not of a finished type.
pub open spec fn keeps_hit(show_done: bool, s: SearchSummary) -> bool {
    show_done || !s.is_finished()
}

/// The search hits shown, in their order.
pub open spec fn shown_hits(items: Seq<SearchSummary>, show_done: bool) -> Seq<SearchSummary> {
    items.filter(|s: SearchSummary| keeps_hit(show_done, s))
}

/// Whether a workflow state type marks an issue as finished.
pub fn is_finished_state_type(t: &String) -> (r: bool)
    ensures
        r == is_finished_type(t@),
{
    let completed = String::from_str("completed");
    let canceled = String::from_str("canceled");
    *t == completed || *t == canceled
}

fn hit_is_finished(s: &SearchSummary) -> (r: bool)
    ensures
        r == s.is_finished(),
{
    match &s.state {
        Some(st) => match &st.state_type {
            Some(t) => is_finished_state_type(t),
            None => false,
        },
        None => false,
    }
}

/// The rows of `issues list`, one per issue, in order.
pub fn issue_rows(items: &Vec<IssueSummary>) -> (rows: Vec<IssueRow>)
    ensures
        rows@.len() == items@.len(),
        forall|k: int| 0 <= k < items@.len() ==> (#[trigger] rows@[k])@ == items@[k].row_view(),
{
    let mut rows: Vec<IssueRow> = Vec::new();
    let mut i: usize = 0;
    while i < items.len()
        invariant
            i <= items@.len(),
            rows@.len() == i,
            forall|k: int| 0 <= k < i ==> (#[trigger] rows@[k])@ == items@[k].row_view(),
        decreases items@.len() - i,
    {
        rows.push(IssueRow::from_summary(&items[i]));
        i = i + 1;
    }
    rows
}

/// The search hits that `issues search` shows: all of them with `show_done`,
/// else those whose state is not of a finished type, in their order.
pub fn filter_done_search<'a>(items: &'a Vec<SearchSummary>, show_done: bool) -> (kept: Vec<&'a SearchSummary>)
    ensures
        kept@.map_values(|r: &SearchSummary| *r) == shown_hits(items@, show_done),
{
    let ghost pred = |s: SearchSummary| keeps_hit(show_done, s);
    let mut kept: Vec<&'a SearchSummary> = Vec::new();
    let mut i: usize = 0;
    while i < items.len()
        invariant
            i <= items@.len(),
            pred == (|s: SearchSummary| keeps_hit(show_done, s)),
            kept@.map_values(|r: &SearchSummary| *r) == items@.take(i as int).filter(pred),
        decreases items@.len() - i,
    {
        proof {
            reveal_with_fuel(Seq::filter, 1);
            assert(items@.take(i + 1).drop_last() =~= items@.take(i as int));
        }
        let item = &items[i];
        let keep = show_done || !hit_is_finished(item);
        let ghost before = kept@;
        if keep {
            kept.push(item);
            proof {
                assert(kept@.map_values(|r: &SearchSummary| *r) =~= before.map_values(|r: &SearchSummary| *r).push(*item));
            }
        }
        i = i + 1;
    }
    proof {
        assert(items@.take(items@.len() as int) =~= items@);
    }
    kept
}

/// The rows of `issues search`, one per kept hit, in order.
pub fn search_rows(items: &Vec<&SearchSummary>) -> (rows: Vec<IssueRow>)
    ensures
        rows@.len() == items@.len(),
        forall|k: int| 0 <= k < items@.len() ==> (#[trigger] rows@[k])@ == items@[k].row_view(),
{
    let mut rows: Vec<IssueRow> = Vec::new();
    let mut i: usize = 0;
    while i < items.len()
        invariant
            i <= items@.len(),
            rows@.len() == i,
            forall|k: int| 0 <= k < i ==> (#[trigger] rows@[k])@ == items@[k].row_view(),
        decreases items@.len() - i,
    {
        rows.push(IssueRow::from_search(items[i]));
        i = i + 1;
    }
    rows
}

} // verus!
