//! Worktree management: directory naming, listing parser, configuration
//! merge, and the decision logic of the `open`, `close`, `list`, `cd` and
//! `init` commands.

pub mod cli;
pub mod commands;
pub mod config;
pub mod error;
pub mod git;
pub mod path;
pub mod scanner;
pub mod shell;
pub mod text;
