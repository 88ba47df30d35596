//! Statements that fill the index and read it back.

pub mod community;
pub mod crawler;
pub mod post;
pub mod search;
