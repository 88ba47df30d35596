//! Query construction, table schemas and row handling for a search index
//! over Lemmy posts, kept apart from the database connection that runs them.

pub mod text;

pub mod database;
pub mod api;
pub mod error;
pub mod identity;
pub mod sources;
