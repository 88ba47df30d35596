//! Authors, communities, posts and sites as a Lemmy instance reports them.

pub mod author;
pub mod community;
pub mod id;
pub mod post;
pub mod site;
