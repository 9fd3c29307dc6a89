//! An interactive chat client's core: provider identities and session
//! configuration, the request builders and response normalisers of each
//! provider, and the command dispatcher of the read-eval loop.

pub mod config;
pub mod text;
pub mod decimal;
pub mod json;
pub mod llm;
pub mod cli;
pub mod error;
