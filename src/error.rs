//! Errors of the library.
use vstd::prelude::*;
use vstd::string::StringExecFns;

verus! {

/// What can make a command fail.
#[derive(Clone, Debug, PartialEq, Eq)]
pub enum GwikError {
    /// The current directory is not inside a repository.
    NotARepository,
    /// The worktree listing could not be produced; holds the tool's diagnostic.
    ListFailed { stderr: String },
    /// The target directory of a new worktree is already there.
    AlreadyExists { name: String },
    /// No worktree goes by that name; holds the names that do exist.
    NotFound { name: String, available: Vec<String> },
    /// The current directory is in none of the worktrees.
    NotInsideWorktree,
    /// Adding a worktree failed; holds the tool's diagnostic.
    AddFailed { stderr: String },
    /// The worktree holds modified or untracked files.
    UncommittedChanges,
    /// Removing a worktree failed otherwise; holds the tool's diagnostic.
    RemoveFailed { stderr: String },
    /// A post-creation command exited unsuccessfully; holds the command as run.
    CommandFailed { command: String },
    /// A filesystem operation failed; holds its message.
    Io { message: String },
    /// The shell is neither of the two supported ones.
    UnsupportedShell { shell: String },
}

/// The text that reports an error.
pub open spec fn message_of(e: GwikError) -> Seq<char> {
    match e {
        GwikError::NotARepository => "Not in a git repository"@,
        GwikError::ListFailed { stderr } => "git worktree list failed: "@ + stderr@,
        GwikError::AlreadyExists { name } => "Worktree '"@ + name@ + "' already exists"@,
        GwikError::NotFound { name, available: _ } => "Worktree '"@ + name@ + "' not found"@,
        GwikError::NotInsideWorktree => "Not inside a worktree. Specify a worktree name to close."@,
        GwikError::AddFailed { stderr } => "git worktree add failed: "@ + stderr@,
        GwikError::UncommittedChanges => "Cannot remove worktree: uncommitted changes exist"@,
        GwikError::RemoveFailed { stderr } => "git worktree remove failed: "@ + stderr@,
        GwikError::CommandFailed { command } => "Post-creation command failed: "@ + command@,
        GwikError::Io { message } => message@,
        GwikError::UnsupportedShell { shell } => "Unsupported shell: "@ + shell@ + ". Use 'bash' or 'zsh'"@,
    }
}

/// `head` followed by `tail`.
fn joined(head: &str, tail: &str) -> (r: String)
    ensures
        r@ == head@ + tail@,
{
    let mut r = head.to_owned();
    r.append(tail);
    r
}

impl GwikError {
    /// The text that reports the error.
    pub fn message(&self) -> (r: String)
        ensures
            r@ == message_of(*self),
    {
        match self {
            GwikError::NotARepository => "Not in a git repository".to_owned(),
            GwikError::ListFailed { stderr } => joined("git worktree list failed: ", stderr.as_str()),
            GwikError::AlreadyExists { name } => {
                let mut r = joined("Worktree '", name.as_str());
                r.append("' already exists");
                r
            },
            GwikError::NotFound { name, available: _ } => {
                let mut r = joined("Worktree '", name.as_str());
                r.append("' not found");
                r
            },
            GwikError::NotInsideWorktree => "Not inside a worktree. Specify a worktree name to close.".to_owned(),
            GwikError::AddFailed { stderr } => joined("git worktree add failed: ", stderr.as_str()),
            GwikError::UncommittedChanges => "Cannot remove worktree: uncommitted changes exist".to_owned(),
            GwikError::RemoveFailed { stderr } => joined("git worktree remove failed: ", stderr.as_str()),
            GwikError::CommandFailed { command } => joined("Post-creation command failed: ", command.as_str()),
            GwikError::Io { message } => message.clone(),
            GwikError::UnsupportedShell { shell } => {
                let mut r = joined("Unsupported shell: ", shell.as_str());
                r.append(". Use 'bash' or 'zsh'");
                r
            },
        }
    }
}

} // verus!
