//! Records returned to search clients.

pub mod models;
