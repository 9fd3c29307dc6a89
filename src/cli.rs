//! The read-eval loop's decisions: classifying a line, dispatching commands
//! against the session, and completing command names.

pub mod helper;
pub mod repl;
