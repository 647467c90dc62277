//! The decision logic of a ticket-tracking service.
//!
//! The service keeps tickets, tags, the attachments between them and
//! comments in a relational store. This library decides everything about a
//! request but does not talk to the store: an operation hands out a
//! statement with its bound values (`store::Step::Ask`), is handed the
//! store's reply (`store::Reply`), and goes on until it ends with its result
//! (`store::Step::Done`). The program around the library runs the
//! statements.
//!
//! - `models`, `error`, `validation`: the entities, the kinds of failure and
//!   the rules on the fields of a request.
//! - `sql`, `commands`, `listing`: statements with numbered placeholders;
//!   what can be asked of the store, and the statement of each command.
//! - `repositories`, `handlers`, `database`, `config`: the operations.
//! - `model`, `laws`: the meaning of the commands as changes of four
//!   relations, and what holds of the operations under that meaning.

pub mod models;
pub mod text;
pub mod sql;
pub mod error;
pub mod ids;
pub mod clock;
pub mod validation;
pub mod store;
pub mod listing;
pub mod commands;
pub mod repositories;
pub mod handlers;
pub mod config;
pub mod database;
pub mod model;
pub mod laws;
