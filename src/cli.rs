//! The command-line surface as plain values.
use vstd::prelude::*;

verus! {

/// A parsed command line.
#[derive(Debug)]
pub struct Cli {
    pub command: Command,
}

/// The subcommands.
#[derive(Debug)]
#[allow(inconsistent_fields)]
pub enum Command {
    /// Create a worktree with an associated branch.
    Open { branch: String, yes: bool },
    /// Remove a worktree; its branch is kept.
    Close { worktree: Option<String>, yes: bool },
    /// List worktrees, of this repository or of all configured roots.
    List { all: bool },
    /// Print the change-directory instruction for a worktree.
    Cd { worktree: String },
    /// Print shell integration code.
    Init { shell: String },
}

} // verus!
