//! What a command line resolves to: the command to run and its options.

use crate::config::Config;
use vstd::prelude::*;

verus! {

/// The command to run.
#[derive(Debug)]
pub enum Command {
    /// Diagnose a file or a directory once and report.
    Check(CheckOptions),
    /// Serve an editor over the language-server protocol.
    Lsp(LspOptions),
}

/// Options of the `check` command.
#[derive(Debug, Clone)]
pub struct CheckOptions {
    /// The path of the file or directory to diagnose.
    pub target: String,
    pub config: Config,
}

/// Options of the `lsp` command.
#[derive(Debug, Clone)]
pub struct LspOptions {
    pub config: Config,
}

} // verus!
