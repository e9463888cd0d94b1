//! Keeps the "Pull Requests" section of an issue's checklist document in step
//! with the pull requests that reference the issue.
//!
//! - `checklist`: the document as lines, with parsing, serialising and the
//!   section operations (find, create, look up, upsert, remove);
//! - `tree`: the same section operations on the rich-text tree;
//! - `laws`, `tree_laws`: what holds across calls of those operations;
//! - `document`: the rich-text tree and its flattening to text;
//! - `github`, `types`: webhook payloads, issue keys and signatures;
//! - `jira`, `config`: what the service decides for the tracker and from its
//!   configuration;
//! - `error`: errors and the response each outcome gets;
//! - `text`: character-sequence helpers.

pub mod text;
pub mod checklist;
pub mod laws;
pub mod document;
pub mod tree;
pub mod tree_laws;
pub mod error;
pub mod types;
pub mod github;
pub mod config;
pub mod jira;
