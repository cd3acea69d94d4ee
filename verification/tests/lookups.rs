//! Rows, finished states, identifier and state lookups, and messages.

use lineark::command::{label_fields, parent_change, LabelMode, ParentChange};
use lineark::errors::IssuesError;
use lineark::lookup::{find_hit_id, is_uuid, select_state_id};
use lineark::model::{IssueSummary, SearchHit, SearchSummary, StateRef, TeamRef, WorkflowStateNode};
use lineark::rows::{filter_done_search, is_finished_state_type, search_rows, IssueRow};
use lineark::text::{join_strings, str_contains_char, str_eq_ignore_ascii_case};

fn some(x: &str) -> Option<String> {
    Some(x.to_string())
}

#[test]
fn ascii_case_comparison() {
    assert!(str_eq_ignore_ascii_case("Done", "dONE"));
    assert!(str_eq_ignore_ascii_case("", ""));
    assert!(!str_eq_ignore_ascii_case("Done", "Don"));
    assert!(!str_eq_ignore_ascii_case("Done", "Dona"));
    assert!(str_eq_ignore_ascii_case("ÉNG-1", "Éng-1"));
    assert!(!str_eq_ignore_ascii_case("éng-1", "ÉNG-1"));
}

#[test]
fn finished_state_types() {
    for t in ["completed", "canceled"] {
        assert!(is_finished_state_type(&t.to_string()), "{}", t);
    }
    for t in ["", "started", "unstarted", "backlog", "triage", "Completed", "cancelled"] {
        assert!(!is_finished_state_type(&t.to_string()), "{}", t);
    }
}

#[test]
fn rows_leave_absent_fields_empty() {
    let row = IssueRow::from_summary(&IssueSummary {
        identifier: some("ENG-1"),
        team: Some(TeamRef { id: some("t"), name: some("Eng"), key: None }),
        state: Some(StateRef { id: some("s"), name: None, state_type: some("started") }),
        ..Default::default()
    });
    assert_eq!(row.identifier, "ENG-1");
    assert_eq!(row.team, "");
    assert_eq!(row.state, "");
    assert_eq!(row.title, "");
    assert_eq!(row.url, "");
}

#[test]
fn filter_done_search_keeps_order() {
    let items: Vec<SearchSummary> = [("Todo", "unstarted"), ("Shipped", "completed"), ("Backlog", "backlog"), ("Dropped", "canceled")]
        .iter()
        .enumerate()
        .map(|(i, (n, t))| SearchSummary {
            identifier: Some(format!("E-{}", i)),
            state: Some(StateRef { id: None, name: some(n), state_type: some(t) }),
            ..Default::default()
        })
        .collect();
    let kept = filter_done_search(&items, false);
    let rows = search_rows(&kept);
    let ids: Vec<&str> = rows.iter().map(|r| r.identifier.as_str()).collect();
    assert_eq!(ids, vec!["E-0", "E-2"]);
    assert_eq!(filter_done_search(&items, true).len(), 4);
}

#[test]
fn uuid_shapes() {
    assert!(is_uuid("550e8400-e29b-41d4-a716-446655440000"));
    assert!(is_uuid("550E8400-E29B-41D4-A716-446655440000"));
    assert!(is_uuid("550e8400e29b41d4a716446655440000"));
    assert!(is_uuid("{550e8400-e29b-41d4-a716-446655440000}"));
    assert!(is_uuid("urn:uuid:550e8400-e29b-41d4-a716-446655440000"));
    assert!(!is_uuid("ENG-123"));
    assert!(!is_uuid("550e8400-e29b-41d4-a716-44665544000g"));
    assert!(!is_uuid("550e8400e29b-41d4-a716-4466554400000"));
    assert!(!is_uuid(""));
}

#[test]
fn first_matching_hit_decides() {
    let hits = vec![
        SearchHit { id: some("x"), identifier: None },
        SearchHit { id: some("a"), identifier: some("eng-5") },
        SearchHit { id: some("b"), identifier: some("ENG-5") },
    ];
    assert_eq!(find_hit_id(&hits, "ENG-5"), Ok("a".to_string()));
    assert_eq!(find_hit_id(&hits, "ENG-6"), Err(IssuesError::IssueNotFound("ENG-6".to_string())));
}

#[test]
fn state_selection_is_case_insensitive_and_first_wins() {
    let nodes = vec![
        WorkflowStateNode { id: some("1"), name: some("Todo") },
        WorkflowStateNode { id: some("2"), name: some("In Review") },
        WorkflowStateNode { id: some("3"), name: some("in review") },
    ];
    assert_eq!(select_state_id(&nodes, "IN REVIEW"), Ok("2".to_string()));
    let e = select_state_id(&nodes, "Blocked").unwrap_err();
    assert_eq!(
        e,
        IssuesError::StatusNotFound {
            name: "Blocked".to_string(),
            available: vec!["Todo".to_string(), "In Review".to_string(), "in review".to_string()],
        }
    );
    let empty: Vec<WorkflowStateNode> = vec![];
    assert_eq!(
        select_state_id(&empty, "X").unwrap_err().message(),
        "Status 'X' not found for this team. Available: "
    );
}

#[test]
fn state_without_name_matches_empty_name() {
    let nodes = vec![WorkflowStateNode { id: None, name: None }];
    assert_eq!(select_state_id(&nodes, ""), Ok(String::new()));
}

#[test]
fn joins_and_contains() {
    let parts = vec!["a".to_string(), "b".to_string(), "c".to_string()];
    assert_eq!(join_strings(&parts, ", "), "a, b, c");
    assert_eq!(join_strings(&vec![], ", "), "");
    assert!(str_contains_char("ENG-1", '-'));
    assert!(!str_contains_char("ENG1", '-'));
}

#[test]
fn label_modes() {
    let ids = || Some(vec!["l".to_string()]);
    assert_eq!(label_fields(false, ids(), LabelMode::Replacing), (ids(), None, None));
    assert_eq!(label_fields(false, ids(), LabelMode::Adding), (None, ids(), None));
    assert_eq!(label_fields(false, ids(), LabelMode::Removing), (None, None, ids()));
    assert_eq!(label_fields(true, ids(), LabelMode::Adding), (Some(vec![]), None, None));
    assert_eq!(label_fields(false, None, LabelMode::Adding), (None, None, None));
}

#[test]
fn parent_changes() {
    assert_eq!(parent_change(true, some("p")), ParentChange::Clear);
    assert_eq!(parent_change(false, some("p")), ParentChange::SetTo("p".to_string()));
    assert_eq!(parent_change(false, None), ParentChange::Keep);
}

#[test]
fn error_messages() {
    assert_eq!(
        IssuesError::NoUpdateFields.message(),
        "No update fields provided. Use --status, --priority, --estimate, --assignee, --labels, --title, --description, --parent, --project, or --cycle to specify changes."
    );
    assert_eq!(IssuesError::Api("boom".to_string()).message(), "boom");
}
