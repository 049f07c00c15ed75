//! Streaming extraction of blog posts from a WordPress export and
//! rendering of the posts that carry a chosen tag as one HTML report.

pub mod decimal;
pub mod error;
pub mod event;
pub mod extractor;
pub mod laws;
pub mod machine;
pub mod names;
pub mod policy;
pub mod post;
pub mod render;
pub mod source;
pub mod stats;
