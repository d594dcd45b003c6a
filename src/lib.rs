//! Core of a single-window chat log: an input buffer holding the line being
//! composed, an append-only transcript of submitted lines, and the session
//! that relays UI events between the two.

pub mod text;
pub mod input;
pub mod transcript;
pub mod session;
