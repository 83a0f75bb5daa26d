//! A small todo service: the data model, the rules that turn request bodies
//! and query outcomes into replies, and a model of the todo repository.
//!
//! The service's own repository is the SQL that the server runs against
//! Postgres; `store` turns what those queries return into repository
//! outcomes. `table::TodoTable` is an in-memory model of that repository: the
//! laws about creating, listing and toggling todos are proved of it.

pub mod todo;
pub mod table;
pub mod reply;
pub mod store;
