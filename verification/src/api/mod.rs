//! Records exchanged with Lemmy instances and with search clients.

pub mod lemmy;
pub mod search;
