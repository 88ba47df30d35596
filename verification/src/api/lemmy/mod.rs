//! Records read from a Lemmy instance.

pub mod models;
