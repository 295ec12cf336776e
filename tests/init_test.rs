use gwik::error::GwikError;
use gwik::shell::{generate_shell_integration, ShellKind};

fn cli_command() -> clap::Command {
    clap::Command::new("gwik")
        .about("Git worktree manager")
        .subcommand_required(true)
        .subcommand(
            clap::Command::new("open")
                .arg(clap::Arg::new("branch").required(true))
                .arg(clap::Arg::new("yes").short('y').long("yes").action(clap::ArgAction::SetTrue)),
        )
        .subcommand(
            clap::Command::new("close")
                .arg(clap::Arg::new("worktree"))
                .arg(clap::Arg::new("yes").short('y').long("yes").action(clap::ArgAction::SetTrue)),
        )
        .subcommand(
            clap::Command::new("list").arg(clap::Arg::new("all").long("all").action(clap::ArgAction::SetTrue)),
        )
        .subcommand(clap::Command::new("cd").arg(clap::Arg::new("worktree").required(true)))
        .subcommand(clap::Command::new("init").arg(clap::Arg::new("shell").required(true)))
}

fn completion(shell: &str) -> String {
    let mut buf: Vec<u8> = Vec::new();
    let kind = match ShellKind::parse(shell) {
        Some(ShellKind::Bash) => clap_complete::Shell::Bash,
        Some(ShellKind::Zsh) => clap_complete::Shell::Zsh,
        None => return String::new(),
    };
    clap_complete::generate(kind, &mut cli_command(), "gwik", &mut buf);
    String::from_utf8_lossy(&buf).into_owned()
}

fn init(shell: &str) -> Result<String, GwikError> {
    generate_shell_integration(shell, &completion(shell))
}

#[test]
fn test_init_bash() {
    let out = init("bash").expect("init bash");
    assert!(out.contains("gwik()"), "Should contain shell function");
    assert!(out.contains("bash"), "Should mention bash");
}

#[test]
fn test_init_zsh() {
    let out = init("zsh").expect("init zsh");
    assert!(out.contains("gwik()"), "Should contain shell function");
    assert!(out.contains("zsh"), "Should mention zsh");
}

#[test]
fn test_init_unsupported_shell() {
    let r = init("fish");
    assert!(r.is_err(), "Unsupported shell should fail");
    let e = r.unwrap_err();
    assert!(e.message().contains("Unsupported shell"), "Error should mention unsupported shell");
    assert_eq!(e, GwikError::UnsupportedShell { shell: "fish".to_string() });
}

#[test]
fn test_init_bash_has_cd_handling() {
    let out = init("bash").unwrap();
    assert!(out.contains("eval"), "Should use eval for cd commands");
    assert!(out.contains("cd ") || out.contains("cd\\ "), "Should detect cd commands");
}

#[test]
fn test_init_zsh_has_cd_handling() {
    let out = init("zsh").unwrap();
    assert!(out.contains("eval"), "Should use eval for cd commands");
    assert!(out.contains("cd ") || out.contains("cd\\ "), "Should detect cd commands");
}

#[test]
fn test_init_bash_includes_completions() {
    let out = init("bash").unwrap();
    assert!(
        out.contains("complete") || out.contains("COMPREPLY") || out.contains("_gwik"),
        "Should include bash completion code"
    );
}

#[test]
fn test_init_zsh_includes_completions() {
    let out = init("zsh").unwrap();
    assert!(
        out.contains("compdef") || out.contains("#compdef") || out.contains("_gwik"),
        "Should include zsh completion code"
    );
}

#[test]
fn test_init_output_is_valid_shell_code() {
    let out = init("bash").unwrap();
    let open_braces = out.matches('{').count();
    let close_braces = out.matches('}').count();
    assert_eq!(open_braces, close_braces, "Should have balanced braces");
}

#[test]
fn test_init_invalid_shells() {
    for shell in &["powershell", "cmd", "nu", "elvish", "tcsh"] {
        assert!(init(shell).is_err(), "{} should not be supported", shell);
    }
}

#[test]
fn test_init_wrapper_calls_gwik_binary() {
    let out = init("bash").unwrap();
    assert!(
        out.contains("command gwik") || out.contains("gwik \"$@\""),
        "Wrapper should invoke gwik binary"
    );
}

#[test]
fn integration_text_is_wrapper_then_completion() {
    let out = generate_shell_integration("bash", "COMPLETION").unwrap();
    assert!(out.starts_with("# gwik shell integration for bash\n"));
    assert!(out.ends_with("# Completions\nCOMPLETION\n"));
    let z = generate_shell_integration("zsh", "").unwrap();
    assert!(z.contains("if [[ $exit_code -eq 0 ]]; then"));
    assert!(z.ends_with("# Completions\n\n"));
    assert!(generate_shell_integration("Bash", "").is_err());
}
