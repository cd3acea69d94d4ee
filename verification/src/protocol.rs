//! The conversation between an `issues` command and the issue tracker: the
//! requests a command makes, the replies it gets, and the steps it takes.

use vstd::prelude::*;

use crate::command::{
    IssueCreateInput, IssueCreateView, IssueFilter, IssueFilterView, IssueUpdateInput,
    IssueUpdateView,
};
use crate::errors::{ErrorView, IssuesError};
use crate::model::{IssueDetail, IssueRef, IssueSummary, SearchHit, SearchSummary, WorkflowStateNode};
use crate::rows::{IssueRow, RowView};
use crate::text::texts_of;

verus! {

/// Work for the caller to do against the issue tracker.
#[derive(Debug, Clone, PartialEq)]
pub enum Request {
    /// Resolve a team key, name or UUID to the team's id.
    ResolveTeam { key: String },
    /// Resolve a user name, display name, UUID or `me` to the user's id.
    ResolveAssignee { name: String },
    /// Resolve label names or UUIDs to label ids, within the team when one is given.
    ResolveLabels { names: Vec<String>, team_id: Option<String> },
    /// Resolve the identifier of the issue acted on to its id.
    ResolveIssue { identifier: String },
    /// Resolve the identifier of a parent issue to its id.
    ResolveParent { identifier: String },
    /// Resolve a project name or UUID to the project's id.
    ResolveProject { name: String },
    /// Resolve a cycle name, number or UUID to the cycle's id, within the team.
    ResolveCycle { name: String, team_id: String },
    /// Ask who the authenticated user is.
    WhoAmI,
    /// Fetch the first `first` workflow states of the team.
    WorkflowStates { team_id: String, first: i64 },
    /// Fetch an issue with all its details, by id or identifier.
    FetchIssue { id: String },
    /// Run a full-text search for an identifier, keeping the first `first` hits.
    FindIssue { query: String, first: i64 },
    /// List the first `first` issues that pass the filter, newest first.
    ListIssues { filter: IssueFilter, first: i64 },
    /// Run a full-text search, within a team and through a filter when given.
    SearchIssues { query: String, first: i64, team_id: Option<String>, filter: Option<IssueFilter> },
    /// Create an issue.
    CreateIssue { input: IssueCreateInput },
    /// Archive the issue of this id.
    ArchiveIssue { id: String },
    /// Unarchive the issue of this id.
    UnarchiveIssue { id: String },
    /// Delete the issue of this id; permanently when `permanently` is `Some(true)`.
    DeleteIssue { id: String, permanently: Option<bool> },
    /// Apply an update to the issue of this id.
    UpdateIssue { id: String, input: IssueUpdateInput },
}

/// What the caller learned doing a [`Request`].
#[derive(Debug)]
pub enum Reply {
    /// The id a resolution found.
    Resolved(String),
    /// The ids a label resolution found.
    ResolvedLabels(Vec<String>),
    /// The authenticated user's id, if the tracker gave one.
    Viewer(Option<String>),
    /// The workflow states fetched.
    WorkflowStates(Vec<WorkflowStateNode>),
    /// The issue fetched.
    Issue(IssueDetail),
    /// The hits of an identifier search.
    Found(Vec<SearchHit>),
    /// The issues listed.
    Listed(Vec<IssueSummary>),
    /// The hits of a full-text search.
    Searched(Vec<SearchSummary>),
    /// The issue a mutation returned.
    Mutated(IssueRef),
    /// The request failed with this message.
    Failed(String),
}

/// What a command shows when it succeeds.
#[derive(Debug)]
pub enum Outcome {
    /// A table of issues.
    Rows(Vec<IssueRow>),
    /// One issue in full.
    Detail(IssueDetail),
    /// The issue a mutation returned.
    Issue(IssueRef),
}

/// The next thing a command does.
#[derive(Debug)]
pub enum Step {
    /// Do this request and resume with its reply.
    Call(Request),
    /// The command succeeded and shows this.
    Done(Outcome),
    /// The command failed.
    Fail(IssuesError),
}

pub enum RequestView {
    ResolveTeam { key: Seq<char> },
    ResolveAssignee { name: Seq<char> },
    ResolveLabels { names: Seq<Seq<char>>, team_id: Option<Seq<char>> },
    ResolveIssue { identifier: Seq<char> },
    ResolveParent { identifier: Seq<char> },
    ResolveProject { name: Seq<char> },
    ResolveCycle { name: Seq<char>, team_id: Seq<char> },
    WhoAmI,
    WorkflowStates { team_id: Seq<char>, first: i64 },
    FetchIssue { id: Seq<char> },
    FindIssue { query: Seq<char>, first: i64 },
    ListIssues { filter: IssueFilterView, first: i64 },
    SearchIssues {
        query: Seq<char>,
        first: i64,
        team_id: Option<Seq<char>>,
        filter: Option<IssueFilterView>,
    },
    CreateIssue { input: IssueCreateView },
    ArchiveIssue { id: Seq<char> },
    UnarchiveIssue { id: Seq<char> },
    DeleteIssue { id: Seq<char>, permanently: Option<bool> },
    UpdateIssue { id: Seq<char>, input: IssueUpdateView },
}

pub enum StepView {
    Call(RequestView),
    Rows(Seq<RowView>),
    Detail(IssueDetail),
    Issue(IssueRef),
    Fail(ErrorView),
}

impl View for Request {
    type V = RequestView;

    open spec fn view(&self) -> RequestView {
        match self {
            Request::ResolveTeam { key } => RequestView::ResolveTeam { key: key@ },
            Request::ResolveAssignee { name } => RequestView::ResolveAssignee { name: name@ },
            Request::ResolveLabels { names, team_id } => RequestView::ResolveLabels {
                names: texts_of(names@),
                team_id: crate::command::opt_text(*team_id),
            },
            Request::ResolveIssue { identifier } => RequestView::ResolveIssue {
                identifier: identifier@,
            },
            Request::ResolveParent { identifier } => RequestView::ResolveParent {
                identifier: identifier@,
            },
            Request::ResolveProject { name } => RequestView::ResolveProject { name: name@ },
            Request::ResolveCycle { name, team_id } => RequestView::ResolveCycle {
                name: name@,
                team_id: team_id@,
            },
            Request::WhoAmI => RequestView::WhoAmI,
            Request::WorkflowStates { team_id, first } => RequestView::WorkflowStates {
                team_id: team_id@,
                first: *first,
            },
            Request::FetchIssue { id } => RequestView::FetchIssue { id: id@ },
            Request::FindIssue { query, first } => RequestView::FindIssue {
                query: query@,
                first: *first,
            },
            Request::ListIssues { filter, first } => RequestView::ListIssues {
                filter: filter@,
                first: *first,
            },
            Request::SearchIssues { query, first, team_id, filter } => RequestView::SearchIssues {
                query: query@,
                first: *first,
                team_id: crate::command::opt_text(*team_id),
                filter: match filter {
                    Some(f) => Some(f@),
                    None => None,
                },
            },
            Request::CreateIssue { input } => RequestView::CreateIssue { input: input@ },
            Request::ArchiveIssue { id } => RequestView::ArchiveIssue { id: id@ },
            Request::UnarchiveIssue { id } => RequestView::UnarchiveIssue { id: id@ },
            Request::DeleteIssue { id, permanently } => RequestView::DeleteIssue {
                id: id@,
                permanently: *permanently,
            },
            Request::UpdateIssue { id, input } => RequestView::UpdateIssue {
                id: id@,
                input: input@,
            },
        }
    }
}

impl View for Step {
    type V = StepView;

    open spec fn view(&self) -> StepView {
        match self {
            Step::Call(r) => StepView::Call(r@),
            Step::Done(Outcome::Rows(rows)) => StepView::Rows(rows@.map_values(|r: IssueRow| r@)),
            Step::Done(Outcome::Detail(d)) => StepView::Detail(*d),
            Step::Done(Outcome::Issue(i)) => StepView::Issue(*i),
            Step::Fail(e) => StepView::Fail(e@),
        }
    }
}

/// Whether `reply` is a possible answer to `request`: a failure answers any
/// request; otherwise the reply carries what the request asked for.
pub open spec fn answers(request: RequestView, reply: Reply) -> bool {
    match reply {
        Reply::Failed(_) => true,
        Reply::Resolved(_) => match request {
            RequestView::ResolveTeam { .. } | RequestView::ResolveAssignee { .. }
            | RequestView::ResolveIssue { .. } | RequestView::ResolveParent { .. }
            | RequestView::ResolveProject { .. } | RequestView::ResolveCycle { .. } => true,
            _ => false,
        },
        Reply::ResolvedLabels(_) => request is ResolveLabels,
        Reply::Viewer(_) => request is WhoAmI,
        Reply::WorkflowStates(_) => request is WorkflowStates,
        Reply::Issue(_) => request is FetchIssue,
        Reply::Found(_) => request is FindIssue,
        Reply::Listed(_) => request is ListIssues,
        Reply::Searched(_) => request is SearchIssues,
        Reply::Mutated(_) => match request {
            RequestView::CreateIssue { .. } | RequestView::ArchiveIssue { .. }
            | RequestView::UnarchiveIssue { .. } | RequestView::DeleteIssue { .. }
            | RequestView::UpdateIssue { .. } => true,
            _ => false,
        },
    }
}

/// Whether `reply` is a possible answer to `request`.
pub fn reply_answers(request: &Request, reply: &Reply) -> (r: bool)
    ensures
        r == answers(request@, *reply),
{
    match reply {
        Reply::Failed(_) => true,
        Reply::Resolved(_) => match request {
            Request::ResolveTeam { .. } | Request::ResolveAssignee { .. }
            | Request::ResolveIssue { .. } | Request::ResolveParent { .. }
            | Request::ResolveProject { .. } | Request::ResolveCycle { .. } => true,
            _ => false,
        },
        Reply::ResolvedLabels(_) => matches!(request, Request::ResolveLabels { .. }),
        Reply::Viewer(_) => matches!(request, Request::WhoAmI),
        Reply::WorkflowStates(_) => matches!(request, Request::WorkflowStates { .. }),
        Reply::Issue(_) => matches!(request, Request::FetchIssue { .. }),
        Reply::Found(_) => matches!(request, Request::FindIssue { .. }),
        Reply::Listed(_) => matches!(request, Request::ListIssues { .. }),
        Reply::Searched(_) => matches!(request, Request::SearchIssues { .. }),
        Reply::Mutated(_) => match request {
            Request::CreateIssue { .. } | Request::ArchiveIssue { .. }
            | Request::UnarchiveIssue { .. } | Request::DeleteIssue { .. }
            | Request::UpdateIssue { .. } => true,
            _ => false,
        },
    }
}

} // verus!
