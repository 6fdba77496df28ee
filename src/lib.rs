//! The persistence layer of a study organizer: users, documents, tasks,
//! tags and books stored in SQLite.
//!
//! Repositories map entities to rows and run every multi-row write in one
//! transaction; each keeps, as ghost state, the writes it has committed, and
//! its contracts state exactly which writes a call commits (none on
//! failure). `links` models which tags an owner is linked to after a history
//! of writes; the command modules check input in front of the repositories.

pub mod book_commands;
pub mod book_repository;
pub mod codec;
pub mod db;
pub mod document_commands;
pub mod document_repository;
pub mod error;
pub mod links;
pub mod models;
pub mod schema;
pub mod sql;
pub mod tag_commands;
pub mod tag_repository;
pub mod task_repository;
pub mod text;
pub mod user_commands;
pub mod user_repository;
pub mod user_signup;
