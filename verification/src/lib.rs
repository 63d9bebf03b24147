//! Syntax diagnostics for Lua workspaces, and the language-server session
//! that keeps an editor supplied with them.
//!
//! Everything in this crate is plain computation: reading files, talking to
//! the editor and walking directories is left to the caller, which hands the
//! results in as ordinary values.

pub mod capabilities;
pub mod check;
pub mod cli;
pub mod config;
pub mod diagnostics;
pub mod error;
pub mod lsp;
pub mod parser;
pub mod text;
pub mod workspace;
