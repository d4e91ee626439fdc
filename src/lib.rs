//! Commit-message helper: a filter that drops excluded files from a unified
//! diff, a decoder for the streamed chat-completion events, and the state
//! machine that decides what to show for each decoded fragment.

pub mod answers;
pub mod api;
pub mod args;
pub mod decoder;
pub mod diff_filter;
pub mod patterns;
pub mod prompt;
pub mod render;
pub mod text;
