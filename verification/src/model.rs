//! The shapes of what the issue tracker returns for the `issues` commands.
//!
//! Every field is optional, as the API may leave any of them out. The
//! priority, a floating-point number on the wire, is held as its IEEE 754 bit
//! pattern, so that it travels through the library unchanged.

use vstd::prelude::*;

verus! {

/// A workflow state, as nested in an issue.
#[derive(Debug, Clone, Default, PartialEq)]
pub struct StateRef {
    pub id: Option<String>,
    pub name: Option<String>,
    /// The state's workflow type (`type` on the wire), such as `started`,
    /// `completed` or `canceled`.
    pub state_type: Option<String>,
}

/// A user, as nested in an issue or a comment.
#[derive(Debug, Clone, Default, PartialEq)]
pub struct UserRef {
    pub id: Option<String>,
    pub name: Option<String>,
    pub email: Option<String>,
}

/// A team, as nested in an issue.
#[derive(Debug, Clone, Default, PartialEq)]
pub struct TeamRef {
    pub id: Option<String>,
    pub name: Option<String>,
    pub key: Option<String>,
}

/// The relations of an issue.
#[derive(Debug, Clone, Default, PartialEq)]
pub struct RelationConnection {
    pub nodes: Vec<RelationNode>,
}

/// One relation of an issue to another.
#[derive(Debug, Clone, Default, PartialEq)]
pub struct RelationNode {
    pub id: Option<String>,
    /// The relation's kind (`type` on the wire).
    pub relation_type: Option<String>,
    pub related_issue: Option<RelatedIssueRef>,
}

/// The issue at the other end of a relation.
#[derive(Debug, Clone, Default, PartialEq)]
pub struct RelatedIssueRef {
    pub id: Option<String>,
    pub identifier: Option<String>,
    pub title: Option<String>,
}

/// The labels of an issue.
#[derive(Debug, Clone, Default, PartialEq)]
pub struct LabelConnection {
    pub nodes: Vec<LabelRef>,
}

/// One label of an issue.
#[derive(Debug, Clone, Default, PartialEq)]
pub struct LabelRef {
    pub id: Option<String>,
    pub name: Option<String>,
}

/// The sub-issues of an issue.
#[derive(Debug, Clone, Default, PartialEq)]
pub struct ChildrenConnection {
    pub nodes: Vec<ChildIssueRef>,
}

/// One sub-issue.
#[derive(Debug, Clone, Default, PartialEq)]
pub struct ChildIssueRef {
    pub identifier: Option<String>,
    pub title: Option<String>,
    pub state: Option<StateRef>,
}

/// The comments on an issue.
#[derive(Debug, Clone, Default, PartialEq)]
pub struct CommentsConnection {
    pub nodes: Vec<CommentSummary>,
}

/// One comment.
#[derive(Debug, Clone, Default, PartialEq)]
pub struct CommentSummary {
    pub body: Option<String>,
    pub user: Option<UserRef>,
    pub created_at: Option<String>,
}

/// An issue as `issues list` shows it.
#[derive(Debug, Clone, Default, PartialEq)]
pub struct IssueSummary {
    pub id: Option<String>,
    pub identifier: Option<String>,
    pub title: Option<String>,
    /// IEEE 754 bits of the priority number.
    pub priority: Option<u64>,
    pub priority_label: Option<String>,
    pub url: Option<String>,
    pub state: Option<StateRef>,
    pub assignee: Option<UserRef>,
    pub team: Option<TeamRef>,
}

/// A full-text search hit as `issues search` shows it.
#[derive(Debug, Clone, Default, PartialEq)]
pub struct SearchSummary {
    pub id: Option<String>,
    pub identifier: Option<String>,
    pub title: Option<String>,
    /// IEEE 754 bits of the priority number.
    pub priority: Option<u64>,
    pub priority_label: Option<String>,
    pub url: Option<String>,
    pub state: Option<StateRef>,
    pub assignee: Option<UserRef>,
    pub team: Option<TeamRef>,
}

/// An issue with everything `issues read` shows.
#[derive(Debug, Clone, Default, PartialEq)]
pub struct IssueDetail {
    pub id: Option<String>,
    pub identifier: Option<String>,
    pub title: Option<String>,
    pub description: Option<String>,
    /// IEEE 754 bits of the priority number.
    pub priority: Option<u64>,
    pub priority_label: Option<String>,
    pub url: Option<String>,
    pub created_at: Option<String>,
    pub updated_at: Option<String>,
    pub archived_at: Option<String>,
    pub state: Option<StateRef>,
    pub assignee: Option<UserRef>,
    pub team: Option<TeamRef>,
    pub labels: Option<LabelConnection>,
    pub relations: Option<RelationConnection>,
    pub children: Option<ChildrenConnection>,
    pub comments: Option<CommentsConnection>,
}

/// What a mutation of an issue returns.
#[derive(Debug, Clone, Default, PartialEq)]
pub struct IssueRef {
    pub id: Option<String>,
    pub identifier: Option<String>,
}

/// One hit of the identifier search that locates an issue.
#[derive(Debug, Clone, Default, PartialEq)]
pub struct SearchHit {
    pub id: Option<String>,
    pub identifier: Option<String>,
}

/// One workflow state of a team.
#[derive(Debug, Clone, Default, PartialEq)]
pub struct WorkflowStateNode {
    pub id: Option<String>,
    pub name: Option<String>,
}

/// The text of an optional string, empty when it is absent.
pub open spec fn text_or_empty(o: Option<String>) -> Seq<char> {
    match o {
        Some(s) => s@,
        None => Seq::empty(),
    }
}

/// The name of an optional workflow state.
pub open spec fn state_name_of(o: Option<StateRef>) -> Option<String> {
    match o {
        Some(s) => s.name,
        None => None,
    }
}

/// The workflow type of an optional state.
pub open spec fn state_type_of(o: Option<StateRef>) -> Option<String> {
    match o {
        Some(s) => s.state_type,
        None => None,
    }
}

/// The name of an optional user.
pub open spec fn user_name_of(o: Option<UserRef>) -> Option<String> {
    match o {
        Some(u) => u.name,
        None => None,
    }
}

/// The key of an optional team.
pub open spec fn team_key_of(o: Option<TeamRef>) -> Option<String> {
    match o {
        Some(t) => t.key,
        None => None,
    }
}

/// The id of an optional team.
pub open spec fn team_id_of(o: Option<TeamRef>) -> Option<String> {
    match o {
        Some(t) => t.id,
        None => None,
    }
}

/// A copy of an optional string, or the empty string when it is absent.
pub fn text_or_default(o: &Option<String>) -> (r: String)
    ensures
        r@ == text_or_empty(*o),
{
    match o {
        Some(s) => s.clone(),
        None => String::new(),
    }
}

/// A copy of an optional string.
pub fn copy_text(o: &Option<String>) -> (r: Option<String>)
    ensures
        r == *o,
{
    match o {
        Some(s) => Some(s.clone()),
        None => None,
    }
}

} // verus!
