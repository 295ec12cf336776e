//! Shell integration: a wrapper function that evaluates the tool's
//! change-directory output in the calling shell, followed by completions.
use vstd::prelude::*;
use vstd::string::StringExecFns;

use crate::error::GwikError;

verus! {

/// Wrapper function for bash, up to where the completion script goes.
pub const BASH_WRAPPER: &'static str = "# gwik shell integration for bash

# Shell wrapper function
gwik() {
    local output
    local exit_code

    # Capture the output
    output=$(command gwik \"$@\")
    exit_code=$?

    if [ $exit_code -eq 0 ]; then
        # Check if output starts with \"cd \"
        if [[ \"$output\" == cd\\ * ]]; then
            eval \"$output\"
        elif [ -n \"$output\" ]; then
            echo \"$output\"
        fi
    else
        if [ -n \"$output\" ]; then
            echo \"$output\"
        fi
        return $exit_code
    fi
}

# Completions
";

/// Wrapper function for zsh, up to where the completion script goes.
pub const ZSH_WRAPPER: &'static str = "# gwik shell integration for zsh

# Shell wrapper function
gwik() {
    local output
    local exit_code

    # Capture the output
    output=$(command gwik \"$@\")
    exit_code=$?

    if [[ $exit_code -eq 0 ]]; then
        # Check if output starts with \"cd \"
        if [[ \"$output\" == cd\\ * ]]; then
            eval \"$output\"
        elif [[ -n \"$output\" ]]; then
            echo \"$output\"
        fi
    else
        if [[ -n \"$output\" ]]; then
            echo \"$output\"
        fi
        return $exit_code
    fi
}

# Completions
";

/// The supported shells.
#[derive(Clone, Copy, Debug, PartialEq, Eq, Structural)]
pub enum ShellKind {
    Bash,
    Zsh,
}

/// The shell that an identifier names, if it is a supported one.
pub open spec fn shell_named(name: Seq<char>) -> Option<ShellKind> {
    if name == "bash"@ {
        Some(ShellKind::Bash)
    } else if name == "zsh"@ {
        Some(ShellKind::Zsh)
    } else {
        None
    }
}

/// The wrapper text of a shell.
pub open spec fn wrapper_of(kind: ShellKind) -> Seq<char> {
    match kind {
        ShellKind::Bash => BASH_WRAPPER@,
        ShellKind::Zsh => ZSH_WRAPPER@,
    }
}

/// The integration text: the wrapper, then the completion script and a newline.
pub open spec fn integration_text(kind: ShellKind, completion: Seq<char>) -> Seq<char> {
    wrapper_of(kind) + completion + seq!['\n']
}

impl ShellKind {
    /// The shell that `name` identifies, if it is a supported one.
    pub fn parse(name: &str) -> (r: Option<ShellKind>)
        ensures
            r == shell_named(name@),
    {
        let n = name.to_owned();
        if n == "bash".to_owned() {
            Some(ShellKind::Bash)
        } else if n == "zsh".to_owned() {
            Some(ShellKind::Zsh)
        } else {
            None
        }
    }
}

/// Shell-source text for `shell`, with `completion` as its completion script;
/// an unsupported shell is refused.
pub fn generate_shell_integration(shell: &str, completion: &str) -> (r: Result<String, GwikError>)
    ensures
        match shell_named(shell@) {
            Some(kind) => r is Ok && r->Ok_0@ == integration_text(kind, completion@),
            None => r is Err && r->Err_0 is UnsupportedShell && r->Err_0->UnsupportedShell_shell@ == shell@,
        },
{
    let kind = match ShellKind::parse(shell) {
        Some(k) => k,
        None => {
            return Err(GwikError::UnsupportedShell { shell: shell.to_owned() });
        },
    };
    let mut text = match kind {
        ShellKind::Bash => BASH_WRAPPER.to_owned(),
        ShellKind::Zsh => ZSH_WRAPPER.to_owned(),
    };
    text.append(completion);
    crate::text::push_char(&mut text, '\n');
    Ok(text)
}

} // verus!
