//! Search results.

pub mod search;
