//! Whole `issues` commands, driven through their requests and replies.

use lineark::command::{
    IssueCreateInput, IssueFilter, IssueUpdateInput, IssuesAction, IssuesCmd, LabelMode,
    ParentChange, StateFilter,
};
use lineark::errors::IssuesError;
use lineark::model::{
    IssueDetail, IssueRef, IssueSummary, LabelConnection, LabelRef, SearchHit, SearchSummary, StateRef, TeamRef, UserRef,
    WorkflowStateNode,
};
use lineark::protocol::{Outcome, Reply, Request, Step};
use lineark::session::IssuesRun;

fn s(x: &str) -> String {
    x.to_string()
}

fn some(x: &str) -> Option<String> {
    Some(x.to_string())
}

fn start(action: IssuesAction) -> (IssuesRun, Step) {
    IssuesRun::start(IssuesCmd { action })
}

fn expect_call(step: Step) -> Request {
    match step {
        Step::Call(r) => r,
        other => panic!("expected a request, got {:?}", other),
    }
}

fn expect_fail(step: Step) -> IssuesError {
    match step {
        Step::Fail(e) => e,
        other => panic!("expected a failure, got {:?}", other),
    }
}

fn feed(run: &mut IssuesRun, reply: Reply) -> Step {
    assert!(run.awaits(&reply));
    run.resume(reply)
}

fn update(identifier: &str) -> IssuesAction {
    IssuesAction::Update {
        identifier: s(identifier),
        status: None,
        priority: None,
        estimate: None,
        labels: None,
        label_by: LabelMode::Replacing,
        clear_labels: false,
        assignee: None,
        parent: None,
        clear_parent: false,
        title: None,
        description: None,
        project: None,
        cycle: None,
    }
}

fn summary(identifier: &str, state: &str) -> IssueSummary {
    IssueSummary {
        id: some("id"),
        identifier: some(identifier),
        title: some("Title"),
        priority: Some(2.0f64.to_bits()),
        priority_label: some("High"),
        url: some("https://linear.app/x"),
        state: Some(StateRef { id: some("st"), name: some(state), state_type: some("started") }),
        assignee: Some(UserRef { id: some("u"), name: some("Ada"), email: None }),
        team: Some(TeamRef { id: some("t"), name: some("Engineering"), key: some("ENG") }),
    }
}

fn hit(identifier: &str, state: Option<(&str, Option<&str>)>) -> SearchSummary {
    SearchSummary {
        identifier: some(identifier),
        state: state.map(|(n, t)| StateRef { id: None, name: some(n), state_type: t.map(|x| x.to_string()) }),
        ..Default::default()
    }
}

fn detail_with_team(team_id: Option<&str>) -> IssueDetail {
    IssueDetail {
        id: some("issue-uuid"),
        identifier: some("ENG-123"),
        team: Some(TeamRef { id: team_id.map(s), name: None, key: some("ENG") }),
        ..Default::default()
    }
}

// ── No-op update validation (issue #9) ─────────────────────────────────────

#[test]
fn issues_update_no_flags_prints_error() {
    let (run, step) = start(update("ENG-123"));
    let e = expect_fail(step);
    assert_eq!(e, IssuesError::NoUpdateFields);
    assert!(e.message().contains("No update fields provided"));
    assert!(run.is_finished());
}

// ── issues list ────────────────────────────────────────────────────────────

#[test]
fn list_hides_finished_issues_by_default() {
    let (mut run, step) = start(IssuesAction::List { limit: 50, team: None, project: None, mine: false, show_done: false });
    assert_eq!(
        expect_call(step),
        Request::ListIssues {
            filter: IssueFilter {
                state: Some(StateFilter::TypeNotIn(vec![s("completed"), s("canceled")])),
                team_id: None,
                assignee_id: None,
                project_id: None,
            },
            first: 50,
        }
    );
    let step = feed(&mut run, Reply::Listed(vec![summary("ENG-1", "Todo"), IssueSummary::default()]));
    match step {
        Step::Done(Outcome::Rows(rows)) => {
            assert_eq!(rows.len(), 2);
            assert_eq!(rows[0].identifier, "ENG-1");
            assert_eq!(rows[0].title, "Title");
            assert_eq!(rows[0].priority_label, "High");
            assert_eq!(rows[0].state, "Todo");
            assert_eq!(rows[0].assignee, "Ada");
            assert_eq!(rows[0].team, "ENG");
            assert_eq!(rows[0].url, "https://linear.app/x");
            assert_eq!(rows[1].identifier, "");
            assert_eq!(rows[1].state, "");
        },
        other => panic!("unexpected {:?}", other),
    }
    assert!(run.is_finished());
}

#[test]
fn list_with_team_and_mine_resolves_both() {
    let (mut run, step) =
        start(IssuesAction::List { limit: 5, team: some("ENG"), project: some("Apollo"), mine: true, show_done: true });
    assert_eq!(expect_call(step), Request::ResolveTeam { key: s("ENG") });
    assert!(!run.awaits(&Reply::Viewer(None)));
    let step = feed(&mut run, Reply::Resolved(s("team-1")));
    assert_eq!(expect_call(step), Request::ResolveProject { name: s("Apollo") });
    let step = feed(&mut run, Reply::Resolved(s("project-1")));
    assert_eq!(expect_call(step), Request::WhoAmI);
    let step = feed(&mut run, Reply::Viewer(some("user-1")));
    assert_eq!(
        expect_call(step),
        Request::ListIssues {
            filter: IssueFilter {
                state: None,
                team_id: some("team-1"),
                assignee_id: some("user-1"),
                project_id: some("project-1"),
            },
            first: 5,
        }
    );
}

#[test]
fn list_mine_without_viewer_id_fails() {
    let (mut run, step) = start(IssuesAction::List { limit: 50, team: None, project: None, mine: true, show_done: false });
    assert_eq!(expect_call(step), Request::WhoAmI);
    let e = expect_fail(feed(&mut run, Reply::Viewer(None)));
    assert_eq!(e, IssuesError::NoViewerId);
    assert_eq!(e.message(), "Could not determine authenticated user ID");
}

#[test]
fn failed_request_ends_the_command_with_its_message() {
    let (mut run, step) = start(IssuesAction::List { limit: 50, team: some("ENG"), project: None, mine: false, show_done: false });
    expect_call(step);
    let e = expect_fail(feed(&mut run, Reply::Failed(s("Team 'ENG' not found"))));
    assert_eq!(e.message(), "Team 'ENG' not found");
    assert!(run.is_finished());
    assert!(!run.awaits(&Reply::Resolved(s("x"))));
}

// ── issues read ────────────────────────────────────────────────────────────

#[test]
fn read_fetches_a_uuid_directly() {
    let uuid = "550e8400-e29b-41d4-a716-446655440000";
    let (mut run, step) = start(IssuesAction::Read { identifier: s(uuid) });
    assert_eq!(expect_call(step), Request::FetchIssue { id: s(uuid) });
    let d = detail_with_team(Some("t"));
    match feed(&mut run, Reply::Issue(d.clone())) {
        Step::Done(Outcome::Detail(got)) => assert_eq!(got, d),
        other => panic!("unexpected {:?}", other),
    }
}

#[test]
fn read_fetches_braced_and_urn_uuids_directly() {
    for id in [
        "{550e8400-e29b-41d4-a716-446655440000}",
        "URN:uuid:550e8400-e29b-41d4-a716-446655440000",
        "550e8400e29b41d4a716446655440000",
    ] {
        let (_, step) = start(IssuesAction::Read { identifier: s(id) });
        assert_eq!(expect_call(step), Request::FetchIssue { id: s(id) });
    }
}

#[test]
fn read_fetches_a_text_without_hyphen_directly() {
    let (_, step) = start(IssuesAction::Read { identifier: s("abc") });
    assert_eq!(expect_call(step), Request::FetchIssue { id: s("abc") });
}

#[test]
fn read_searches_an_identifier_then_fetches_its_id() {
    let (mut run, step) = start(IssuesAction::Read { identifier: s("ENG-123") });
    assert_eq!(expect_call(step), Request::FindIssue { query: s("ENG-123"), first: 5 });
    let hits = vec![
        SearchHit { id: some("a"), identifier: some("ENG-1234") },
        SearchHit { id: some("b"), identifier: some("eng-123") },
        SearchHit { id: some("c"), identifier: some("ENG-123") },
    ];
    let step = feed(&mut run, Reply::Found(hits));
    assert_eq!(expect_call(step), Request::FetchIssue { id: s("b") });
    match feed(&mut run, Reply::Issue(IssueDetail::default())) {
        Step::Done(Outcome::Detail(_)) => {},
        other => panic!("unexpected {:?}", other),
    }
}

#[test]
fn read_of_an_unknown_identifier_fails() {
    let (mut run, step) = start(IssuesAction::Read { identifier: s("ENG-9") });
    expect_call(step);
    let e = expect_fail(feed(&mut run, Reply::Found(vec![SearchHit { id: some("a"), identifier: some("ENG-90") }])));
    assert_eq!(e, IssuesError::IssueNotFound(s("ENG-9")));
    assert_eq!(e.message(), "Issue 'ENG-9' not found");
}

#[test]
fn read_of_a_hit_without_id_fails() {
    let (mut run, step) = start(IssuesAction::Read { identifier: s("ENG-9") });
    expect_call(step);
    let hits = vec![
        SearchHit { id: None, identifier: some("ENG-9") },
        SearchHit { id: some("later"), identifier: some("ENG-9") },
    ];
    let e = expect_fail(feed(&mut run, Reply::Found(hits)));
    assert_eq!(e, IssuesError::IssueNotFound(s("ENG-9")));
}

// ── issues search ──────────────────────────────────────────────────────────

#[test]
fn search_with_all_filters() {
    let (mut run, step) = start(IssuesAction::Search {
        query: s("crash"),
        limit: 25,
        show_done: false,
        team: some("ENG"),
        assignee: some("me"),
        status: Some(vec![s("Todo"), s("In Progress")]),
    });
    assert_eq!(expect_call(step), Request::ResolveTeam { key: s("ENG") });
    let step = feed(&mut run, Reply::Resolved(s("team-1")));
    assert_eq!(expect_call(step), Request::ResolveAssignee { name: s("me") });
    let step = feed(&mut run, Reply::Resolved(s("user-1")));
    assert_eq!(
        expect_call(step),
        Request::SearchIssues {
            query: s("crash"),
            first: 25,
            team_id: some("team-1"),
            filter: Some(IssueFilter {
                state: Some(StateFilter::NameIn(vec![s("Todo"), s("In Progress")])),
                team_id: None,
                assignee_id: some("user-1"),
                project_id: None,
            }),
        }
    );
    let hits = vec![
        hit("ENG-1", Some(("Done", Some("completed")))),
        hit("ENG-2", Some(("Todo", Some("unstarted")))),
        hit("ENG-3", Some(("Won't fix", Some("canceled")))),
        hit("ENG-4", None),
        hit("ENG-5", Some(("Shipped", Some("completed")))),
        hit("ENG-6", Some(("Done", None))),
    ];
    match feed(&mut run, Reply::Searched(hits)) {
        Step::Done(Outcome::Rows(rows)) => {
            let ids: Vec<&str> = rows.iter().map(|r| r.identifier.as_str()).collect();
            assert_eq!(ids, vec!["ENG-2", "ENG-4", "ENG-6"]);
        },
        other => panic!("unexpected {:?}", other),
    }
}

#[test]
fn search_without_filters_sends_none_and_show_done_keeps_all() {
    let (mut run, step) = start(IssuesAction::Search {
        query: s("x"),
        limit: 3,
        show_done: true,
        team: None,
        assignee: None,
        status: None,
    });
    assert_eq!(
        expect_call(step),
        Request::SearchIssues { query: s("x"), first: 3, team_id: None, filter: None }
    );
    match feed(&mut run, Reply::Searched(vec![hit("A-1", Some(("Done", Some("completed")))), hit("A-2", Some(("Todo", Some("started"))))])) {
        Step::Done(Outcome::Rows(rows)) => assert_eq!(rows.len(), 2),
        other => panic!("unexpected {:?}", other),
    }
}

#[test]
fn search_with_status_only_filters_by_state_name() {
    let (_, step) = start(IssuesAction::Search {
        query: s("x"),
        limit: 3,
        show_done: false,
        team: None,
        assignee: None,
        status: Some(vec![s("Todo")]),
    });
    assert_eq!(
        expect_call(step),
        Request::SearchIssues {
            query: s("x"),
            first: 3,
            team_id: None,
            filter: Some(IssueFilter {
                state: Some(StateFilter::NameIn(vec![s("Todo")])),
                team_id: None,
                assignee_id: None,
                project_id: None,
            }),
        }
    );
}

// ── issues create ──────────────────────────────────────────────────────────

fn create_all() -> IssuesAction {
    IssuesAction::Create {
        title: s("Fix the bug"),
        team: s("ENG"),
        assignee: some("me"),
        labels: Some(vec![s("Bug"), s("Frontend")]),
        priority: Some(1),
        estimate: Some(3),
        description: some("Details"),
        parent: some("ENG-1"),
        status: some("in progress"),
        project: some("Apollo"),
        cycle: some("7"),
    }
}

#[test]
fn create_resolves_every_name_then_creates() {
    let (mut run, step) = start(create_all());
    assert_eq!(expect_call(step), Request::ResolveTeam { key: s("ENG") });
    let step = feed(&mut run, Reply::Resolved(s("t")));
    assert_eq!(expect_call(step), Request::ResolveAssignee { name: s("me") });
    let step = feed(&mut run, Reply::Resolved(s("u")));
    assert_eq!(
        expect_call(step),
        Request::ResolveLabels { names: vec![s("Bug"), s("Frontend")], team_id: some("t") }
    );
    let step = feed(&mut run, Reply::ResolvedLabels(vec![s("l1"), s("l2")]));
    assert_eq!(expect_call(step), Request::WorkflowStates { team_id: s("t"), first: 50 });
    let states = vec![
        WorkflowStateNode { id: some("s0"), name: some("Todo") },
        WorkflowStateNode { id: some("s1"), name: some("In Progress") },
    ];
    let step = feed(&mut run, Reply::WorkflowStates(states));
    assert_eq!(expect_call(step), Request::ResolveParent { identifier: s("ENG-1") });
    let step = feed(&mut run, Reply::Resolved(s("p")));
    assert_eq!(expect_call(step), Request::ResolveProject { name: s("Apollo") });
    let step = feed(&mut run, Reply::Resolved(s("pr")));
    assert_eq!(expect_call(step), Request::ResolveCycle { name: s("7"), team_id: s("t") });
    let step = feed(&mut run, Reply::Resolved(s("c")));
    assert_eq!(
        expect_call(step),
        Request::CreateIssue {
            input: IssueCreateInput {
                title: some("Fix the bug"),
                team_id: some("t"),
                assignee_id: some("u"),
                label_ids: Some(vec![s("l1"), s("l2")]),
                priority: Some(1),
                estimate: Some(3),
                description: some("Details"),
                parent_id: some("p"),
                state_id: some("s1"),
                project_id: some("pr"),
                cycle_id: some("c"),
            },
        }
    );
    let created = IssueRef { id: some("new"), identifier: some("ENG-77") };
    match feed(&mut run, Reply::Mutated(created.clone())) {
        Step::Done(Outcome::Issue(r)) => assert_eq!(r, created),
        other => panic!("unexpected {:?}", other),
    }
}

#[test]
fn create_with_only_team_creates_at_once() {
    let (mut run, step) = start(IssuesAction::Create {
        title: s("T"),
        team: s("ENG"),
        assignee: None,
        labels: None,
        priority: None,
        estimate: None,
        description: None,
        parent: None,
        status: None,
        project: None,
        cycle: None,
    });
    expect_call(step);
    let step = feed(&mut run, Reply::Resolved(s("t")));
    assert_eq!(
        expect_call(step),
        Request::CreateIssue {
            input: IssueCreateInput {
                title: some("T"),
                team_id: some("t"),
                assignee_id: None,
                label_ids: None,
                priority: None,
                estimate: None,
                description: None,
                parent_id: None,
                state_id: None,
                project_id: None,
                cycle_id: None,
            },
        }
    );
}

#[test]
fn create_with_unknown_status_lists_the_team_states() {
    let (mut run, step) = start(IssuesAction::Create {
        title: s("T"),
        team: s("ENG"),
        assignee: None,
        labels: None,
        priority: None,
        estimate: None,
        description: None,
        parent: None,
        status: some("Blocked"),
        project: None,
        cycle: None,
    });
    expect_call(step);
    expect_call(feed(&mut run, Reply::Resolved(s("t"))));
    let states = vec![
        WorkflowStateNode { id: some("s0"), name: some("Todo") },
        WorkflowStateNode { id: some("s9"), name: None },
        WorkflowStateNode { id: some("s1"), name: some("Done") },
    ];
    let e = expect_fail(feed(&mut run, Reply::WorkflowStates(states)));
    assert_eq!(e.message(), "Status 'Blocked' not found for this team. Available: Todo, Done");
}

// ── issues archive / unarchive / delete ────────────────────────────────────

#[test]
fn archive_unarchive_and_delete_resolve_the_issue_first() {
    let (mut run, step) = start(IssuesAction::Archive { identifier: s("ENG-123") });
    assert_eq!(expect_call(step), Request::ResolveIssue { identifier: s("ENG-123") });
    assert_eq!(expect_call(feed(&mut run, Reply::Resolved(s("i")))), Request::ArchiveIssue { id: s("i") });

    let (mut run, step) = start(IssuesAction::Unarchive { identifier: s("ENG-123") });
    expect_call(step);
    assert_eq!(expect_call(feed(&mut run, Reply::Resolved(s("i")))), Request::UnarchiveIssue { id: s("i") });

    let (mut run, step) = start(IssuesAction::Delete { identifier: s("ENG-123"), permanently: false });
    expect_call(step);
    assert_eq!(
        expect_call(feed(&mut run, Reply::Resolved(s("i")))),
        Request::DeleteIssue { id: s("i"), permanently: None }
    );

    let (mut run, step) = start(IssuesAction::Delete { identifier: s("ENG-123"), permanently: true });
    expect_call(step);
    assert_eq!(
        expect_call(feed(&mut run, Reply::Resolved(s("i")))),
        Request::DeleteIssue { id: s("i"), permanently: Some(true) }
    );
}

// ── issues update ──────────────────────────────────────────────────────────

#[test]
fn update_with_status_reads_the_team_then_sets_the_state() {
    let mut action = update("ENG-123");
    if let IssuesAction::Update { status, priority, .. } = &mut action {
        *status = some("DONE");
        *priority = Some(2);
    }
    let (mut run, step) = start(action);
    assert_eq!(expect_call(step), Request::ResolveIssue { identifier: s("ENG-123") });
    let step = feed(&mut run, Reply::Resolved(s("issue-uuid")));
    assert_eq!(expect_call(step), Request::FindIssue { query: s("ENG-123"), first: 5 });
    let step = feed(&mut run, Reply::Found(vec![SearchHit { id: some("issue-uuid"), identifier: some("ENG-123") }]));
    assert_eq!(expect_call(step), Request::FetchIssue { id: s("issue-uuid") });
    let step = feed(&mut run, Reply::Issue(detail_with_team(Some("team-9"))));
    assert_eq!(expect_call(step), Request::WorkflowStates { team_id: s("team-9"), first: 50 });
    let states = vec![WorkflowStateNode { id: None, name: some("Done") }];
    let step = feed(&mut run, Reply::WorkflowStates(states));
    assert_eq!(
        expect_call(step),
        Request::UpdateIssue {
            id: s("issue-uuid"),
            input: IssueUpdateInput {
                title: None,
                description: None,
                assignee_id: None,
                priority: Some(2),
                estimate: None,
                state_id: some(""),
                parent: ParentChange::Keep,
                label_ids: None,
                added_label_ids: None,
                removed_label_ids: None,
                project_id: None,
                cycle_id: None,
            },
        }
    );
}

#[test]
fn update_status_of_issue_without_team_fails() {
    let mut action = update("ENG-123");
    if let IssuesAction::Update { status, .. } = &mut action {
        *status = some("Done");
    }
    let (mut run, step) = start(action);
    expect_call(step);
    expect_call(feed(&mut run, Reply::Resolved(s("i"))));
    expect_call(feed(&mut run, Reply::Found(vec![SearchHit { id: some("i"), identifier: some("ENG-123") }])));
    let e = expect_fail(feed(&mut run, Reply::Issue(detail_with_team(None))));
    assert_eq!(e, IssuesError::TeamUnknown(s("ENG-123")));
    assert_eq!(e.message(), "Could not determine team for issue 'ENG-123'");
}

#[test]
fn update_clear_parent_and_clear_labels() {
    let mut action = update("ENG-123");
    if let IssuesAction::Update { clear_parent, clear_labels, title, .. } = &mut action {
        *clear_parent = true;
        *clear_labels = true;
        *title = some("New title");
    }
    let (mut run, step) = start(action);
    expect_call(step);
    assert_eq!(
        expect_call(feed(&mut run, Reply::Resolved(s("i")))),
        Request::UpdateIssue {
            id: s("i"),
            input: IssueUpdateInput {
                title: some("New title"),
                description: None,
                assignee_id: None,
                priority: None,
                estimate: None,
                state_id: None,
                parent: ParentChange::Clear,
                label_ids: Some(vec![]),
                added_label_ids: None,
                removed_label_ids: None,
                project_id: None,
                cycle_id: None,
            },
        }
    );
}

#[test]
fn update_adds_labels_within_the_issue_team() {
    let mut action = update("550e8400-e29b-41d4-a716-446655440000");
    if let IssuesAction::Update { labels, label_by, parent, assignee, .. } = &mut action {
        *labels = Some(vec![s("Bug")]);
        *label_by = LabelMode::Adding;
        *parent = some("ENG-1");
        *assignee = some("Ada");
    }
    let (mut run, step) = start(action);
    expect_call(step);
    let step = feed(&mut run, Reply::Resolved(s("i")));
    assert_eq!(expect_call(step), Request::FetchIssue { id: s("550e8400-e29b-41d4-a716-446655440000") });
    let step = feed(&mut run, Reply::Issue(detail_with_team(Some("t"))));
    assert_eq!(expect_call(step), Request::ResolveAssignee { name: s("Ada") });
    let step = feed(&mut run, Reply::Resolved(s("u")));
    assert_eq!(expect_call(step), Request::ResolveParent { identifier: s("ENG-1") });
    let step = feed(&mut run, Reply::Resolved(s("p")));
    assert_eq!(expect_call(step), Request::ResolveLabels { names: vec![s("Bug")], team_id: some("t") });
    let step = feed(&mut run, Reply::ResolvedLabels(vec![s("l")]));
    match expect_call(step) {
        Request::UpdateIssue { id, input } => {
            assert_eq!(id, "i");
            assert_eq!(input.assignee_id, some("u"));
            assert_eq!(input.parent, ParentChange::SetTo(s("p")));
            assert_eq!(input.label_ids, None);
            assert_eq!(input.added_label_ids, Some(vec![s("l")]));
            assert_eq!(input.removed_label_ids, None);
        },
        other => panic!("unexpected {:?}", other),
    }
}

#[test]
fn update_cycle_with_team_resolves_within_it() {
    let mut action = update("abc");
    if let IssuesAction::Update { cycle, label_by, labels, .. } = &mut action {
        *cycle = some("12");
        *labels = Some(vec![s("x")]);
        *label_by = LabelMode::Removing;
    }
    let (mut run, step) = start(action);
    expect_call(step);
    assert_eq!(expect_call(feed(&mut run, Reply::Resolved(s("i")))), Request::FetchIssue { id: s("abc") });
    let step = feed(&mut run, Reply::Issue(detail_with_team(Some("t"))));
    assert_eq!(expect_call(step), Request::ResolveCycle { name: s("12"), team_id: s("t") });
    let step = feed(&mut run, Reply::Resolved(s("c")));
    assert_eq!(expect_call(step), Request::ResolveLabels { names: vec![s("x")], team_id: some("t") });
    match expect_call(feed(&mut run, Reply::ResolvedLabels(vec![s("l")]))) {
        Request::UpdateIssue { input, .. } => {
            assert_eq!(input.cycle_id, some("c"));
            assert_eq!(input.removed_label_ids, Some(vec![s("l")]));
            assert_eq!(input.label_ids, None);
        },
        other => panic!("unexpected {:?}", other),
    }
}

#[test]
fn a_run_refuses_replies_of_the_wrong_kind() {
    let (run, step) = start(IssuesAction::Archive { identifier: s("ENG-1") });
    expect_call(step);
    assert!(!run.awaits(&Reply::Viewer(None)));
    assert!(!run.awaits(&Reply::Listed(vec![])));
    assert!(run.awaits(&Reply::Failed(s("boom"))));
    assert!(run.awaits(&Reply::Resolved(s("i"))));
}

#[test]
fn update_cycle_of_issue_without_team_fails_after_earlier_resolutions() {
    let mut action = update("abc");
    if let IssuesAction::Update { cycle, project, .. } = &mut action {
        *cycle = some("12");
        *project = some("Apollo");
    }
    let (mut run, step) = start(action);
    expect_call(step);
    expect_call(feed(&mut run, Reply::Resolved(s("i"))));
    let step = feed(&mut run, Reply::Issue(detail_with_team(None)));
    assert_eq!(expect_call(step), Request::ResolveProject { name: s("Apollo") });
    let e = expect_fail(feed(&mut run, Reply::Resolved(s("pr"))));
    assert_eq!(e, IssuesError::TeamUnknown(s("abc")));
}

#[test]
fn read_detail_carries_labels() {
    let (mut run, step) = start(IssuesAction::Read { identifier: s("abc") });
    expect_call(step);
    let d = IssueDetail {
        labels: Some(LabelConnection { nodes: vec![LabelRef { id: some("l1"), name: some("Bug") }] }),
        ..Default::default()
    };
    match feed(&mut run, Reply::Issue(d.clone())) {
        Step::Done(Outcome::Detail(got)) => {
            assert_eq!(got.labels.unwrap().nodes[0].name, some("Bug"));
        },
        other => panic!("unexpected {:?}", other),
    }
}
