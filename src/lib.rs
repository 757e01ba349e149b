//! The story-resolution core of a visual-novel runtime: two-tier locale
//! fallback, the merge of localized and base actions, the traversal of
//! paragraphs, and parse-error reports.

pub mod action;
pub mod config;
pub mod context;
pub mod diagnostic;
pub mod fallback;
pub mod script;
pub mod value;
