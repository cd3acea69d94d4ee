//! Properties of the `issues` commands that span several steps or functions.

use vstd::prelude::*;

use crate::command::{opt_text, opt_texts, IssuesAction, LabelMode, ParentChangeView, StateFilterView};
use crate::errors::{ErrorView, IssuesError};
use crate::protocol::{Reply, RequestView, StepView};
use crate::rows::{is_finished_type, keeps_hit, shown_hits};
use crate::session::{
    awaits, demand, done_state_types, finish, initial, on_reply, settle, status_name, update_team, RunView,
};
use crate::lookup::{hit_lookup, is_first_state, is_uuid_text, lemma_first_state_unique, present_names, state_matches};
use crate::usage::{command_reference_text, ENV_SET_HINT, FILE_FOUND_HINT, REFERENCE_HEAD, REFERENCE_MIDDLE, REFERENCE_TAIL};
use crate::text::{join_texts, texts_of};
use crate::model::{text_or_empty, IssueSummary, SearchHit, SearchSummary, WorkflowStateNode};

verus! {

/// How many things a run has yet to learn.
pub open spec fn unknowns(v: RunView) -> nat {
    (if v.team_id is None { 1nat } else { 0nat })
    + (if v.viewer_id is None { 1nat } else { 0nat })
    + (if v.assignee_id is None { 1nat } else { 0nat })
    + (if v.label_ids is None { 1nat } else { 0nat })
    + (if v.state_id is None { 1nat } else { 0nat })
    + (if v.issue_id is None { 1nat } else { 0nat })
    + (if v.parent_id is None { 1nat } else { 0nat })
    + (if v.project_id is None { 1nat } else { 0nat })
    + (if v.cycle_id is None { 1nat } else { 0nat })
    + (if v.found_id is None { 1nat } else { 0nat })
    + (if v.detail is None { 1nat } else { 0nat })
}

/// An update that names nothing to change fails with "No update fields
/// provided" before it makes any request.
pub proof fn law_empty_update_fails_before_any_request(action: IssuesAction)
    requires
        action.changes_nothing(),
    ensures
        settle(initial(action)).1 == StepView::Fail(ErrorView::NoUpdateFields),
        settle(initial(action)).0.finished,
{
}

/// A request that fails ends the command, with the request's own message.
pub proof fn law_failed_request_ends_run(v: RunView, message: String)
    requires
        awaits(v, Reply::Failed(message)),
    ensures
        on_reply(v, Reply::Failed(message)) == (finish(v), StepView::Fail(ErrorView::Api(message@))),
        on_reply(v, Reply::Failed(message)).0.finished,
{
}

/// What a run asks for, it does not know yet.
pub proof fn lemma_demanded_is_unknown(v: RunView)
    ensures
        demand(v) matches Ok(RequestView::ResolveTeam { .. }) ==> v.team_id is None,
        demand(v) matches Ok(RequestView::ResolveAssignee { .. }) ==> v.assignee_id is None,
        demand(v) matches Ok(RequestView::ResolveLabels { .. }) ==> v.label_ids is None,
        demand(v) matches Ok(RequestView::ResolveIssue { .. }) ==> v.issue_id is None,
        demand(v) matches Ok(RequestView::ResolveParent { .. }) ==> v.parent_id is None,
        demand(v) matches Ok(RequestView::ResolveProject { .. }) ==> v.project_id is None,
        demand(v) matches Ok(RequestView::ResolveCycle { .. }) ==> v.cycle_id is None,
        demand(v) matches Ok(RequestView::WhoAmI) ==> v.viewer_id is None,
        demand(v) matches Ok(RequestView::WorkflowStates { .. }) ==> v.state_id is None,
        demand(v) matches Ok(RequestView::FindIssue { .. }) ==> v.found_id is None,
        demand(v) matches Ok(RequestView::FetchIssue { .. }) && !(v.action is Read) ==> v.detail is None,
{
    match v.action {
        IssuesAction::List { .. } => {},
        IssuesAction::Read { .. } => {},
        IssuesAction::Search { .. } => {},
        IssuesAction::Create { .. } => {},
        IssuesAction::Archive { .. } => {},
        IssuesAction::Unarchive { .. } => {},
        IssuesAction::Delete { .. } => {},
        IssuesAction::Update { .. } => {},
    }
}

/// Each reply that does not end a command teaches it something it did not
/// know, and nothing else changes its command; as a run knows at most eleven
/// things, every command ends after at most twelve replies.
pub proof fn law_each_reply_makes_progress(v: RunView, reply: Reply)
    requires
        awaits(v, reply),
        !on_reply(v, reply).0.finished,
    ensures
        unknowns(on_reply(v, reply).0) < unknowns(v),
        on_reply(v, reply).0.action == v.action,
{
    lemma_demanded_is_unknown(v);
    match reply {
        Reply::Resolved(id) => {
            let w = crate::session::fill_resolved(v, id@);
            assert(settle(w).0 == w);
        },
        _ => {},
    }
}

/// A run's knowledge is bounded.
pub proof fn law_unknowns_bounded(v: RunView)
    ensures
        unknowns(v) <= 11,
        unknowns(initial(v.action)) == 11,
{
}

/// `issues list` hides done and canceled issues unless `--show-done`: the
/// list it requests excludes the `completed` and `canceled` state types
/// exactly when `show_done` is off.
pub proof fn law_list_hides_finished_unless_show_done(v: RunView)
    requires
        v.action is List,
        demand(v) matches Ok(RequestView::ListIssues { .. }),
    ensures
        demand(v) matches Ok(RequestView::ListIssues { filter, .. }) && (match filter.state {
            Some(StateFilterView::TypeNotIn(types)) => !v.action->List_show_done && types == done_state_types(),
            Some(StateFilterView::NameIn(_)) => false,
            None => v.action->List_show_done,
        }),
{
}

/// `issues search` hides done and canceled issues unless `--show-done`: it
/// shows every hit with `--show-done`; without it, no hit whose state is of
/// type `completed` or `canceled`, and every other hit (those without a state
/// or a state type too), in their order.
pub proof fn law_search_hides_finished_unless_show_done(items: Seq<SearchSummary>, show_done: bool)
    ensures
        show_done ==> shown_hits(items, show_done) == items,
        !show_done ==> forall|k: int|
            0 <= k < shown_hits(items, show_done).len() ==> !(#[trigger] shown_hits(items, show_done)[k]).is_finished(),
        forall|k: int|
            0 <= k < items.len() && !(#[trigger] items[k]).is_finished()
                ==> shown_hits(items, show_done).contains(items[k]),
{
    let pred = |s: SearchSummary| keeps_hit(show_done, s);
    assert(shown_hits(items, show_done) == items.filter(pred));
    broadcast use vstd::seq_lib::group_filter_ensures;
    if show_done {
        lemma_filter_all(items, pred);
    }
    assert forall|k: int|
        0 <= k < items.filter(pred).len() && !show_done implies !(#[trigger] items.filter(pred)[k]).is_finished() by {
        assert(pred(items.filter(pred)[k]));
    }
    assert forall|k: int|
        0 <= k < items.len() && !(#[trigger] items[k]).is_finished() implies items.filter(
            pred,
        ).contains(items[k]) by {
        assert(pred(items[k]));
    }
}

proof fn lemma_filter_all(items: Seq<SearchSummary>, pred: spec_fn(SearchSummary) -> bool)
    requires
        forall|s: SearchSummary| #[trigger] pred(s),
    ensures
        items.filter(pred) == items,
    decreases items.len(),
{
    reveal_with_fuel(Seq::filter, 1);
    if items.len() > 0 {
        lemma_filter_all(items.drop_last(), pred);
        assert(items.drop_last().push(items.last()) =~= items);
    }
}

/// An update sends a null parent exactly when `--clear-parent` is set, and
/// `--clear-labels` sends an empty label set, and nothing to add or remove.
pub proof fn law_update_clears_what_it_is_told_to(v: RunView)
    requires
        v.action is Update,
        demand(v) matches Ok(RequestView::UpdateIssue { .. }),
    ensures
        demand(v) matches Ok(RequestView::UpdateIssue { input, .. }) && {
            &&& (input.parent is Clear <==> v.action->Update_clear_parent)
            &&& v.action->Update_clear_labels ==> {
                &&& input.label_ids == Some(Seq::<Seq<char>>::empty())
                &&& input.added_label_ids is None
                &&& input.removed_label_ids is None
            }
        },
{
}

/// A run knows only what its command line asks it to resolve.
pub open spec fn consistent(v: RunView) -> bool {
    match v.action {
        IssuesAction::List { team, project, mine, .. } => {
            &&& v.team_id is Some ==> team is Some
            &&& v.project_id is Some ==> project is Some
            &&& v.viewer_id is Some ==> mine
            &&& v.assignee_id is None && v.label_ids is None && v.state_id is None
            &&& v.issue_id is None && v.parent_id is None
            &&& v.cycle_id is None && v.found_id is None && v.detail is None
        },
        IssuesAction::Read { .. } => {
            &&& v.team_id is None && v.viewer_id is None && v.assignee_id is None
            &&& v.label_ids is None && v.state_id is None && v.issue_id is None
            &&& v.parent_id is None && v.project_id is None && v.cycle_id is None
            &&& v.detail is None
        },
        IssuesAction::Search { team, assignee, .. } => {
            &&& v.team_id is Some ==> team is Some
            &&& v.assignee_id is Some ==> assignee is Some
            &&& v.viewer_id is None && v.label_ids is None && v.state_id is None
            &&& v.issue_id is None && v.parent_id is None && v.project_id is None
            &&& v.cycle_id is None && v.found_id is None && v.detail is None
        },
        IssuesAction::Create { assignee, labels, parent, status, project, cycle, .. } => {
            &&& v.assignee_id is Some ==> assignee is Some
            &&& v.label_ids is Some ==> labels is Some
            &&& v.state_id is Some ==> status is Some
            &&& v.parent_id is Some ==> parent is Some
            &&& v.project_id is Some ==> project is Some
            &&& v.cycle_id is Some ==> cycle is Some
            &&& v.viewer_id is None && v.issue_id is None && v.found_id is None && v.detail is None
        },
        IssuesAction::Update {
            status,
            labels,
            clear_labels,
            assignee,
            parent,
            project,
            cycle,
            ..
        } => {
            &&& v.assignee_id is Some ==> assignee is Some
            &&& v.label_ids is Some ==> labels is Some && !clear_labels
            &&& v.state_id is Some ==> status is Some
            &&& v.parent_id is Some ==> parent is Some
            &&& v.project_id is Some ==> project is Some
            &&& v.cycle_id is Some ==> cycle is Some
            &&& (v.detail is Some || v.found_id is Some) ==> (status is Some || labels is Some
                || cycle is Some)
            &&& v.team_id is None && v.viewer_id is None
        },
        _ => {
            &&& v.team_id is None && v.viewer_id is None && v.assignee_id is None
            &&& v.label_ids is None && v.state_id is None && v.parent_id is None
            &&& v.project_id is None && v.cycle_id is None && v.found_id is None
            &&& v.detail is None
        },
    }
}

/// A command that has just begun knows nothing its command line does not ask for.
pub proof fn law_consistent_at_start(action: IssuesAction)
    ensures
        consistent(initial(action)),
        consistent(settle(initial(action)).0),
{
}

/// Every reply keeps a run knowing only what its command line asks for.
pub proof fn law_reply_keeps_consistent(v: RunView, reply: Reply)
    requires
        consistent(v),
        awaits(v, reply),
    ensures
        consistent(on_reply(v, reply).0),
{
    match v.action {
        IssuesAction::List { .. } => lemma_reply_keeps_consistent_by_reply(v, reply),
        IssuesAction::Read { .. } => lemma_reply_keeps_consistent_by_reply(v, reply),
        IssuesAction::Search { .. } => lemma_reply_keeps_consistent_by_reply(v, reply),
        IssuesAction::Create { .. } => lemma_reply_keeps_consistent_by_reply(v, reply),
        IssuesAction::Archive { .. } => lemma_reply_keeps_consistent_by_reply(v, reply),
        IssuesAction::Unarchive { .. } => lemma_reply_keeps_consistent_by_reply(v, reply),
        IssuesAction::Delete { .. } => lemma_reply_keeps_consistent_by_reply(v, reply),
        IssuesAction::Update { .. } => lemma_reply_keeps_consistent_by_reply(v, reply),
    }
}

proof fn lemma_reply_keeps_consistent_by_reply(v: RunView, reply: Reply)
    requires
        consistent(v),
        awaits(v, reply),
    ensures
        consistent(on_reply(v, reply).0),
{
    match reply {
        Reply::Resolved(id) => {
            let w = crate::session::fill_resolved(v, id@);
            assert(consistent(w));
        },
        Reply::ResolvedLabels(ids) => {},
        Reply::Viewer(o) => {},
        Reply::WorkflowStates(nodes) => {},
        Reply::Issue(d) => {},
        Reply::Found(hits) => {},
        _ => {},
    }
}

/// `issues create` sends the title, priority, estimate and description given
/// on the command line, each as given; and an assignee, labels, a state, a
/// parent, a project and a cycle exactly when the command line names them,
/// each the id resolved for it, always with the resolved team.
pub proof fn law_create_sends_what_was_given(v: RunView)
    requires
        consistent(v),
        demand(v) matches Ok(RequestView::CreateIssue { .. }),
    ensures
        demand(v) matches Ok(RequestView::CreateIssue { input }) && match v.action {
            IssuesAction::Create {
                title,
                assignee,
                labels,
                priority,
                estimate,
                description,
                parent,
                status,
                project,
                cycle,
                ..
            } => {
                &&& input.title == Some(title@)
                &&& input.priority == priority
                &&& input.estimate == estimate
                &&& input.description == opt_text(description)
                &&& input.team_id is Some && input.team_id == v.team_id
                &&& input.assignee_id == v.assignee_id
                &&& input.label_ids == v.label_ids
                &&& input.state_id == v.state_id
                &&& input.parent_id == v.parent_id
                &&& input.project_id == v.project_id
                &&& input.cycle_id == v.cycle_id
                &&& (input.assignee_id is Some <==> assignee is Some)
                &&& (input.label_ids is Some <==> labels is Some)
                &&& (input.state_id is Some <==> status is Some)
                &&& (input.parent_id is Some <==> parent is Some)
                &&& (input.project_id is Some <==> project is Some)
                &&& (input.cycle_id is Some <==> cycle is Some)
            },
            _ => false,
        },
{
}

/// `issues update` sends the title, description, priority and estimate given
/// on the command line, each as given (absent when not given); an assignee, a
/// state, a parent, a project and a cycle exactly when the command line names
/// them, each the id resolved for it; and the resolved labels exactly when it
/// names labels without `--clear-labels`, as the new set, as additions or as
/// removals as `--label-by` says.
pub proof fn law_update_sends_what_was_given(v: RunView)
    requires
        consistent(v),
        demand(v) matches Ok(RequestView::UpdateIssue { .. }),
    ensures
        demand(v) matches Ok(RequestView::UpdateIssue { input, .. }) && match v.action {
            IssuesAction::Update {
                status,
                priority,
                estimate,
                labels,
                label_by,
                clear_labels,
                assignee,
                parent,
                clear_parent,
                title,
                description,
                project,
                cycle,
                ..
            } => {
                &&& input.title == opt_text(title)
                &&& input.description == opt_text(description)
                &&& input.priority == priority
                &&& input.estimate == estimate
                &&& input.assignee_id == v.assignee_id
                &&& input.state_id == v.state_id
                &&& input.project_id == v.project_id
                &&& input.cycle_id == v.cycle_id
                &&& (!clear_parent && v.parent_id is Some ==> input.parent == ParentChangeView::SetTo(
                    v.parent_id->0,
                ))
                &&& (!clear_labels && labels is Some ==> match label_by {
                    LabelMode::Replacing => input.label_ids == v.label_ids && input.added_label_ids is None
                        && input.removed_label_ids is None,
                    LabelMode::Adding => input.added_label_ids == v.label_ids && input.label_ids is None
                        && input.removed_label_ids is None,
                    LabelMode::Removing => input.removed_label_ids == v.label_ids && input.label_ids is None
                        && input.added_label_ids is None,
                })
                &&& (!clear_labels && labels is None ==> input.label_ids is None
                    && input.added_label_ids is None && input.removed_label_ids is None)
                &&& (input.assignee_id is Some <==> assignee is Some)
                &&& (input.state_id is Some <==> status is Some)
                &&& (input.parent is SetTo <==> (parent is Some && !clear_parent))
                &&& (input.project_id is Some <==> project is Some)
                &&& (input.cycle_id is Some <==> cycle is Some)
                &&& (v.label_ids is Some <==> (labels is Some && !clear_labels))
            },
            _ => false,
        },
{
}

/// `issues read` fetches a UUID, or a text without a hyphen, directly; any
/// other identifier is searched for first.
pub proof fn law_read_routes_by_identifier_shape(identifier: String)
    ensures
        settle(initial(IssuesAction::Read { identifier })).1 == (if is_uuid_text(identifier@)
            || !identifier@.contains('-') {
            StepView::Call(RequestView::FetchIssue { id: identifier@ })
        } else {
            StepView::Call(RequestView::FindIssue { query: identifier@, first: 5 })
        }),
{
}

/// After the identifier search, `issues read` fetches the issue of the first
/// hit that carries the identifier, ignoring ASCII case; when there is none,
/// or it has no id, the issue is not found.
pub proof fn law_read_fetches_the_matching_hit(identifier: String, hits: Vec<SearchHit>)
    requires
        !is_uuid_text(identifier@),
        identifier@.contains('-'),
    ensures
        ({
            let v = settle(initial(IssuesAction::Read { identifier })).0;
            on_reply(v, Reply::Found(hits)).1 == match hit_lookup(hits@, identifier@) {
                Some(id) => StepView::Call(RequestView::FetchIssue { id }),
                None => StepView::Fail(ErrorView::IssueNotFound(identifier@)),
            }
        }),
{
}

/// `issues list` and `issues search` hide the same workflow state types:
/// those the list's filter excludes are exactly the finished ones.
pub proof fn law_list_and_search_hide_the_same_types(t: Seq<char>)
    ensures
        done_state_types().contains(t) <==> is_finished_type(t),
{
    if is_finished_type(t) {
        if t == "completed"@ {
            assert(done_state_types()[0] == t);
        } else {
            assert(done_state_types()[1] == t);
        }
    }
}

/// `issues list` asks for exactly `--limit` issues, and filters by team,
/// project and assignee exactly when the command line names a team, a
/// project, or `--mine`, with the ids resolved.
pub proof fn law_list_filters_by_what_was_given(v: RunView)
    requires
        consistent(v),
        demand(v) matches Ok(RequestView::ListIssues { .. }),
    ensures
        demand(v) matches Ok(RequestView::ListIssues { filter, .. }) && match v.action {
            IssuesAction::List { team, project, mine, .. } => {
                &&& (filter.team_id is Some <==> team is Some) && filter.team_id == v.team_id
                &&& (filter.project_id is Some <==> project is Some) && filter.project_id == v.project_id
                &&& (filter.assignee_id is Some <==> mine) && filter.assignee_id == v.viewer_id
            },
            _ => false,
        },
        demand(v) matches Ok(RequestView::ListIssues { first, .. }) && match v.action {
            IssuesAction::List { limit, .. } => first == limit,
            _ => false,
        },
{
}

/// `issues search` searches the query given for exactly `--limit` hits,
/// within the resolved team exactly when `--team` is given. It filters by
/// the resolved assignee exactly when `--assignee` is given, and by the state
/// names exactly when `--status` is given, each whatever the other flag is;
/// with neither it sends no filter.
pub proof fn law_search_sends_what_was_given(v: RunView)
    requires
        consistent(v),
        demand(v) matches Ok(RequestView::SearchIssues { .. }),
    ensures
        demand(v) matches Ok(RequestView::SearchIssues { query: q, first, team_id, filter }) && match v.action {
            IssuesAction::Search { query, limit, team, assignee, status, .. } => {
                &&& q == query@
                &&& first == limit
                &&& (team_id is Some <==> team is Some) && team_id == v.team_id
                &&& (assignee is Some ==> v.assignee_id is Some && filter is Some
                    && filter->0.assignee_id == v.assignee_id)
                &&& (assignee is None ==> (filter is None || filter->0.assignee_id is None))
                &&& (status is Some ==> filter is Some && filter->0.state == Some(
                    StateFilterView::NameIn(texts_of(status->0@)),
                ))
                &&& (status is None ==> (filter is None || filter->0.state is None))
                &&& (assignee is None && status is None ==> filter is None)
                &&& (filter is Some ==> filter->0.team_id is None && filter->0.project_id is None)
            },
            _ => false,
        },
{
}

/// Archive, unarchive and delete act on the id resolved for the identifier
/// given, and delete is permanent exactly when `--permanently` is given.
pub proof fn law_mutations_act_on_the_resolved_issue(v: RunView)
    requires
        v.issue_id is Some,
    ensures
        v.action is Archive ==> demand(v) == Ok::<RequestView, ErrorView>(RequestView::ArchiveIssue { id: v.issue_id->0 }),
        v.action is Unarchive ==> demand(v) == Ok::<RequestView, ErrorView>(RequestView::UnarchiveIssue { id: v.issue_id->0 }),
        v.action is Delete ==> (demand(v) matches Ok(RequestView::DeleteIssue { id, permanently }) && id
            == v.issue_id->0 && (permanently == Some(true) <==> v.action->Delete_permanently) && (
        permanently is None <==> !v.action->Delete_permanently)),
{
}

/// The command reference begins with its fixed head, then the hint that the
/// token's environment variable is set exactly when it is; whether the token
/// file exists changes nothing before the hint on the file: with the variable
/// unset, the head is followed directly by the rest of the reference, the
/// same with the file found or not up to that hint.
pub proof fn law_usage_hints_are_independent(token_in_env: bool, token_file_found: bool)
    ensures
        command_reference_text(token_in_env, token_file_found).take(REFERENCE_HEAD@.len() as int)
            == REFERENCE_HEAD@,
        command_reference_text(true, token_file_found) == REFERENCE_HEAD@ + ENV_SET_HINT@
            + command_reference_text(false, token_file_found).skip(REFERENCE_HEAD@.len() as int),
        command_reference_text(false, token_file_found).skip(REFERENCE_HEAD@.len() as int).take(
            REFERENCE_MIDDLE@.len() as int,
        ) == REFERENCE_MIDDLE@,
        command_reference_text(false, token_file_found).len() == REFERENCE_HEAD@.len()
            + REFERENCE_MIDDLE@.len() + (if token_file_found { FILE_FOUND_HINT@.len() } else { 0 })
            + REFERENCE_TAIL@.len(),
        command_reference_text(token_in_env, true).take((REFERENCE_HEAD@.len() + (if token_in_env {
            ENV_SET_HINT@.len()
        } else {
            0
        }) + REFERENCE_MIDDLE@.len()) as int) == command_reference_text(token_in_env, false).take(
            (REFERENCE_HEAD@.len() + (if token_in_env { ENV_SET_HINT@.len() } else { 0 })
                + REFERENCE_MIDDLE@.len()) as int,
        ),
        command_reference_text(token_in_env, true) == command_reference_text(token_in_env, false).take(
            command_reference_text(token_in_env, false).len() - REFERENCE_TAIL@.len(),
        ) + FILE_FOUND_HINT@ + REFERENCE_TAIL@,
{
    let h = REFERENCE_HEAD@;
    let e = ENV_SET_HINT@;
    let m = REFERENCE_MIDDLE@;
    let f = FILE_FOUND_HINT@;
    let t = REFERENCE_TAIL@;
    let empty = Seq::<char>::empty();
    let fe = if token_file_found { f } else { empty };
    let ee = if token_in_env { e } else { empty };
    assert(command_reference_text(token_in_env, token_file_found) == h + ee + m + fe + t);
    assert((h + ee + m + fe + t).take(h.len() as int) =~= h);
    assert(command_reference_text(false, token_file_found) == h + empty + m + fe + t);
    assert((h + empty + m + fe + t).skip(h.len() as int) =~= m + fe + t);
    assert(h + e + m + fe + t =~= h + e + (m + fe + t));
    assert((m + fe + t).take(m.len() as int) =~= m);
    let n = (h.len() + ee.len() + m.len()) as int;
    assert((h + ee + m + f + t).take(n) =~= (h + ee + m + empty + t).take(n));
    assert((h + ee + m + empty + t).take((h + ee + m + empty + t).len() - t.len()) =~= h + ee + m);
    assert(h + ee + m + f + t =~= (h + ee + m) + f + t);
}

/// The row of an issue shows its identifier, title, priority label and link,
/// its state's name, its assignee's name and its team's key, each empty when
/// the issue lacks it.
pub proof fn law_row_shows_the_issue(i: IssueSummary)
    ensures
        i.identifier matches Some(x) ==> i.row_view().identifier == x@,
        i.identifier is None ==> i.row_view().identifier.len() == 0,
        i.title matches Some(x) ==> i.row_view().title == x@,
        i.title is None ==> i.row_view().title.len() == 0,
        i.priority_label matches Some(x) ==> i.row_view().priority_label == x@,
        i.priority_label is None ==> i.row_view().priority_label.len() == 0,
        i.url matches Some(x) ==> i.row_view().url == x@,
        i.url is None ==> i.row_view().url.len() == 0,
        (i.state is Some && i.state->0.name is Some) ==> i.row_view().state == i.state->0.name->0@,
        (i.state is None || i.state->0.name is None) ==> i.row_view().state.len() == 0,
        (i.assignee is Some && i.assignee->0.name is Some) ==> i.row_view().assignee == i.assignee->0.name->0@,
        (i.assignee is None || i.assignee->0.name is None) ==> i.row_view().assignee.len() == 0,
        (i.team is Some && i.team->0.key is Some) ==> i.row_view().team == i.team->0.key->0@,
        (i.team is None || i.team->0.key is None) ==> i.row_view().team.len() == 0,
{
}

/// A search hit's row shows it as an issue's row does.
pub proof fn law_search_row_shows_the_hit(i: SearchSummary)
    ensures
        i.row_view() == (IssueSummary {
            id: i.id,
            identifier: i.identifier,
            title: i.title,
            priority: i.priority,
            priority_label: i.priority_label,
            url: i.url,
            state: i.state,
            assignee: i.assignee,
            team: i.team,
        }).row_view(),
{
}

/// `issues list` shows one row per listed issue, in the order listed, and
/// `issues search` one row per shown hit, in order.
pub proof fn law_tables_follow_the_reply(v: RunView, items: Vec<IssueSummary>, hits: Vec<SearchSummary>)
    ensures
        awaits(v, Reply::Listed(items)) ==> (on_reply(v, Reply::Listed(items)).1 matches StepView::Rows(rows)
            && rows.len() == items@.len() && forall|k: int| 0 <= k < items@.len() ==> #[trigger] rows[k]
            == items@[k].row_view()),
        awaits(v, Reply::Searched(hits)) ==> (on_reply(v, Reply::Searched(hits)).1 matches StepView::Rows(rows)
            && rows.len() == shown_hits(hits@, v.action->Search_show_done).len() && forall|k: int|
            0 <= k < rows.len() ==> #[trigger] rows[k] == shown_hits(hits@, v.action->Search_show_done)[k].row_view()),
{
    if awaits(v, Reply::Searched(hits)) {
        match v.action {
            IssuesAction::Search { .. } => {},
            IssuesAction::List { .. } => {},
            IssuesAction::Read { .. } => {},
            IssuesAction::Create { .. } => {},
            IssuesAction::Archive { .. } => {},
            IssuesAction::Unarchive { .. } => {},
            IssuesAction::Delete { .. } => {},
            IssuesAction::Update { .. } => {},
        }
    }
}

/// The labels, workflow states and cycle a command looks up are those of
/// the team it resolved (`issues create`) or of the issue's team (`issues
/// update`).
pub proof fn law_lookups_use_the_team(v: RunView)
    ensures
        v.action is Create ==> (demand(v) matches Ok(RequestView::ResolveLabels { team_id, .. }) ==> team_id
            == v.team_id && team_id is Some),
        v.action is Create ==> (demand(v) matches Ok(RequestView::WorkflowStates { team_id, first }) ==> Some(team_id)
            == v.team_id && first == 50),
        v.action is Create ==> (demand(v) matches Ok(RequestView::ResolveCycle { team_id, .. }) ==> Some(team_id)
            == v.team_id),
        v.action is Update ==> (demand(v) matches Ok(RequestView::ResolveLabels { team_id, .. }) ==> team_id
            == update_team(v)),
        v.action is Update ==> (demand(v) matches Ok(RequestView::WorkflowStates { team_id, first }) ==> Some(team_id)
            == update_team(v) && first == 50),
        v.action is Update ==> (demand(v) matches Ok(RequestView::ResolveCycle { team_id, .. }) ==> Some(team_id)
            == update_team(v)),
        update_team(v) == (match v.detail {
            Some(d) => match d.team {
                Some(t) => opt_text(t.id),
                None => None,
            },
            None => None,
        }),
{
}

/// The state a command sets is that of the first workflow state whose name
/// matches the `--status` given, ignoring ASCII case; when none matches, the
/// command fails naming the status and listing the team's state names.
pub proof fn law_state_is_the_first_of_its_name(v: RunView, nodes: Vec<WorkflowStateNode>, k: int)
    requires
        awaits(v, Reply::WorkflowStates(nodes)),
    ensures
        is_first_state(nodes@, status_name(v.action), k) ==> on_reply(v, Reply::WorkflowStates(nodes)).0.state_id
            == Some(text_or_empty(nodes@[k].id)),
        (forall|j: int| 0 <= j < nodes@.len() ==> !state_matches(#[trigger] nodes@[j], status_name(v.action)))
            ==> on_reply(v, Reply::WorkflowStates(nodes)).1 == StepView::Fail(ErrorView::StatusNotFound {
            name: status_name(v.action),
            available: texts_of(present_names(nodes@)),
        }),
        v.action matches IssuesAction::Create { status: Some(n), .. } ==> status_name(v.action) == n@,
        v.action matches IssuesAction::Update { status: Some(n), .. } ==> status_name(v.action) == n@,
{
    if is_first_state(nodes@, status_name(v.action), k) {
        let j = choose|j: int| is_first_state(nodes@, status_name(v.action), j);
        lemma_first_state_unique(nodes@, status_name(v.action), j, k);
        let w = RunView { state_id: Some(text_or_empty(nodes@[k].id)), ..v };
        assert(settle(w).0.state_id == w.state_id);
    }
}

/// Each failure message names what failed: a request's failure is its own
/// message; a missing issue or team names the identifier given; a missing
/// state names the status given, followed by the team's state names joined
/// by ", ".
pub proof fn law_messages_name_what_failed(m: String, identifier: String, name: String, available: Vec<String>)
    ensures
        IssuesError::Api(m)@ == ErrorView::Api(m@),
        IssuesError::Api(m).message_text() == m@,
        IssuesError::IssueNotFound(identifier).message_text().subrange(7, 7 + identifier@.len() as int)
            == identifier@,
        IssuesError::TeamUnknown(identifier).message_text().subrange(36, 36 + identifier@.len() as int)
            == identifier@,
        (IssuesError::StatusNotFound { name, available }).message_text().subrange(8, 8 + name@.len() as int)
            == name@,
        (IssuesError::StatusNotFound { name, available }).message_text().skip(
            (IssuesError::StatusNotFound { name, available }).message_text().len() - join_texts(
                texts_of(available@),
                ", "@,
            ).len(),
        ) == join_texts(texts_of(available@), ", "@),
{
    reveal_strlit("Issue '");
    reveal_strlit("Could not determine team for issue '");
    reveal_strlit("Status '");
    let a = "Issue '"@;
    assert((a + identifier@ + "' not found"@).subrange(7, 7 + identifier@.len() as int) =~= identifier@);
    let b = "Could not determine team for issue '"@;
    assert((b + identifier@ + "'"@).subrange(36, 36 + identifier@.len() as int) =~= identifier@);
    let c = "Status '"@;
    let j = join_texts(texts_of(available@), ", "@);
    let whole = c + name@ + "' not found for this team. Available: "@ + j;
    assert(whole.subrange(8, 8 + name@.len() as int) =~= name@);
    assert(whole.skip(whole.len() - j.len()) =~= j);
}

/// `issues list --mine` filters by the authenticated user's id, and fails
/// when the tracker reports none.
pub proof fn law_mine_needs_the_viewer(v: RunView, id: String)
    requires
        awaits(v, Reply::Viewer(None)),
    ensures
        on_reply(v, Reply::Viewer(None)) == (finish(v), StepView::Fail(ErrorView::NoViewerId)),
        on_reply(v, Reply::Viewer(Some(id))).0.viewer_id == Some(id@),
{
    let w = RunView { viewer_id: Some(id@), ..v };
    assert(settle(w).0.viewer_id == w.viewer_id);
}

/// Every name a command resolves is the text given on its command line for
/// that role: the team, the assignee, the labels, the parent, the project,
/// the cycle, and the identifier of the issue acted on.
pub proof fn law_resolutions_ask_for_what_was_given(v: RunView)
    ensures
        demand(v) matches Ok(RequestView::ResolveTeam { key }) ==> (match v.action {
            IssuesAction::List { team, .. } => team is Some && key == team->0@,
            IssuesAction::Search { team, .. } => team is Some && key == team->0@,
            IssuesAction::Create { team, .. } => key == team@,
            _ => false,
        }),
        demand(v) matches Ok(RequestView::ResolveAssignee { name }) ==> (match v.action {
            IssuesAction::Search { assignee, .. } => assignee is Some && name == assignee->0@,
            IssuesAction::Create { assignee, .. } => assignee is Some && name == assignee->0@,
            IssuesAction::Update { assignee, .. } => assignee is Some && name == assignee->0@,
            _ => false,
        }),
        demand(v) matches Ok(RequestView::ResolveLabels { names, .. }) ==> (match v.action {
            IssuesAction::Create { labels, .. } => labels is Some && names == texts_of(labels->0@),
            IssuesAction::Update { labels, .. } => labels is Some && names == texts_of(labels->0@),
            _ => false,
        }),
        demand(v) matches Ok(RequestView::ResolveParent { identifier }) ==> (match v.action {
            IssuesAction::Create { parent, .. } => parent is Some && identifier == parent->0@,
            IssuesAction::Update { parent, .. } => parent is Some && identifier == parent->0@,
            _ => false,
        }),
        demand(v) matches Ok(RequestView::ResolveProject { name }) ==> (match v.action {
            IssuesAction::List { project, .. } => project is Some && name == project->0@,
            IssuesAction::Create { project, .. } => project is Some && name == project->0@,
            IssuesAction::Update { project, .. } => project is Some && name == project->0@,
            _ => false,
        }),
        demand(v) matches Ok(RequestView::ResolveCycle { name, .. }) ==> (match v.action {
            IssuesAction::Create { cycle, .. } => cycle is Some && name == cycle->0@,
            IssuesAction::Update { cycle, .. } => cycle is Some && name == cycle->0@,
            _ => false,
        }),
        demand(v) matches Ok(RequestView::ResolveIssue { identifier: i }) ==> (match v.action {
            IssuesAction::Archive { identifier } => i == identifier@,
            IssuesAction::Unarchive { identifier } => i == identifier@,
            IssuesAction::Delete { identifier, .. } => i == identifier@,
            IssuesAction::Update { identifier, .. } => i == identifier@,
            _ => false,
        }),
{
}

} // verus!
