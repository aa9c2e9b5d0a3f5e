//! A chat-command interpreter for a categorization service.
//!
//! Free-form chat text is classified into a small set of structured
//! commands (`classify`), indirect links are resolved to canonical
//! identifiers (`resolver`), and commands are turned into HTTP request
//! plans whose responses are formatted back into reply text (`executor`).
//! The `dispatch` module ties the stages together for a caller that
//! performs the actual network traffic.

pub mod classify;
pub mod clock;
pub mod command;
pub mod decode;
pub mod dispatch;
pub mod executor;
pub mod laws;
pub mod resolver;
pub mod text;

use vstd::prelude::*;

verus! {

} // verus!
