//! Turns a failed shell command into a staged suggestion: classification of the
//! completion provider's reply, the single-slot handoff mailbox, the in-place
//! terminal notification, and the shell hook text.

pub mod outcome;
pub mod fetcher;
pub mod mailbox;
pub mod terminal;
pub mod shell;
pub mod controller;
