//! Formats text as a markdown blockquote: every line receives the `"> "`
//! marker, overly long text is cut at a soft or hard character limit, and an
//! ellipsis marks the place where content was dropped.

pub mod blockquote;
pub mod laws;
pub mod model;
pub mod whitespace;

pub use blockquote::Blockquote;
