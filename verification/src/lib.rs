//! A command-line HTTP client's request description: the methods and content
//! types it understands, and the heuristic that guesses a content type from a
//! request body when the caller names none.

pub mod cli;
pub mod guess;
pub mod http;
pub mod text;
