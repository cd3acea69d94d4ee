//! The ways an `issues` command fails, and the message shown for each.

use vstd::prelude::*;

use crate::text::{join_strings, join_texts, texts_of};

verus! {

/// A failure of an `issues` command.
#[derive(Debug, Clone, PartialEq)]
pub enum IssuesError {
    /// The issue tracker, or the name resolution in front of it, failed with this message.
    Api(String),
    /// The authenticated user came back without an id.
    NoViewerId,
    /// No issue carries this identifier.
    IssueNotFound(String),
    /// The team has no workflow state of this name; `available` lists the names it has.
    StatusNotFound { name: String, available: Vec<String> },
    /// An update named nothing to change.
    NoUpdateFields,
    /// The team of this issue could not be determined.
    TeamUnknown(String),
}

/// The text of the refusal of an update that changes nothing.
pub open spec fn no_update_fields_text() -> Seq<char> {
    "No update fields provided. Use --status, --priority, --estimate, --assignee, --labels, --title, --description, --parent, --project, or --cycle to specify changes."@
}

impl IssuesError {
    /// The message shown to the user.
    pub open spec fn message_text(self) -> Seq<char> {
        match self {
            IssuesError::Api(m) => m@,
            IssuesError::NoViewerId => "Could not determine authenticated user ID"@,
            IssuesError::IssueNotFound(identifier) => "Issue '"@ + identifier@ + "' not found"@,
            IssuesError::StatusNotFound { name, available } => "Status '"@ + name@
                + "' not found for this team. Available: "@ + join_texts(
                texts_of(available@),
                ", "@,
            ),
            IssuesError::NoUpdateFields => no_update_fields_text(),
            IssuesError::TeamUnknown(identifier) => "Could not determine team for issue '"@
                + identifier@ + "'"@,
        }
    }

    /// The message shown to the user.
    pub fn message(&self) -> (m: String)
        ensures
            m@ == self.message_text(),
    {
        match self {
            IssuesError::Api(m) => m.clone(),
            IssuesError::NoViewerId => String::from_str("Could not determine authenticated user ID"),
            IssuesError::IssueNotFound(identifier) => {
                let mut m = String::from_str("Issue '");
                m.append(identifier.as_str());
                m.append("' not found");
                m
            },
            IssuesError::StatusNotFound { name, available } => {
                let mut m = String::from_str("Status '");
                m.append(name.as_str());
                m.append("' not found for this team. Available: ");
                let list = join_strings(available, ", ");
                m.append(list.as_str());
                m
            },
            IssuesError::NoUpdateFields => String::from_str(
                "No update fields provided. Use --status, --priority, --estimate, --assignee, --labels, --title, --description, --parent, --project, or --cycle to specify changes.",
            ),
            IssuesError::TeamUnknown(identifier) => {
                let mut m = String::from_str("Could not determine team for issue '");
                m.append(identifier.as_str());
                m.append("'");
                m
            },
        }
    }
}

} // verus!

verus! {

/// An error with its texts.
pub enum ErrorView {
    Api(Seq<char>),
    NoViewerId,
    IssueNotFound(Seq<char>),
    StatusNotFound { name: Seq<char>, available: Seq<Seq<char>> },
    NoUpdateFields,
    TeamUnknown(Seq<char>),
}

impl View for IssuesError {
    type V = ErrorView;

    open spec fn view(&self) -> ErrorView {
        match self {
            IssuesError::Api(m) => ErrorView::Api(m@),
            IssuesError::NoViewerId => ErrorView::NoViewerId,
            IssuesError::IssueNotFound(i) => ErrorView::IssueNotFound(i@),
            IssuesError::StatusNotFound { name, available } => ErrorView::StatusNotFound {
                name: name@,
                available: texts_of(available@),
            },
            IssuesError::NoUpdateFields => ErrorView::NoUpdateFields,
            IssuesError::TeamUnknown(i) => ErrorView::TeamUnknown(i@),
        }
    }
}

} // verus!
