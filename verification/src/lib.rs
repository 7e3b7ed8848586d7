//! A chat bot's core: it watches a room for `s/pattern/replacement/`
//! commands, applies them to an earlier message and answers with the
//! corrected text.

pub mod command;
pub mod config;
pub mod diff;
pub mod error;
pub mod event;
pub mod handler;
pub mod membership;
pub mod session;
pub mod substitute;
pub mod sync;
pub mod target;
pub mod text;
