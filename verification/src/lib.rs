//! Decisions behind the `issues` and `usage` commands of a command-line client
//! for the Linear issue tracker: the command model, the request/reply protocol
//! that drives each command, and the pure transformations of what the API
//! returns into what the user sees.

pub mod command;
pub mod errors;
pub mod laws;
pub mod lookup;
pub mod model;
pub mod protocol;
pub mod rows;
pub mod session;
pub mod text;
pub mod usage;
