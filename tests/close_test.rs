use gwik::commands::close::{removal_message, resolve_target, CloseAction, CloseEvent, CloseFlow, ClosePhase};
use gwik::config::{Config, GlobalConfig, LocalConfig};
use gwik::error::GwikError;
use gwik::git::{parse_worktree_list, GitRepo, WorktreeInfo};

const ROOT: &str = "/tmp/repo";

fn repo() -> GitRepo {
    GitRepo { root: ROOT.to_string(), git_dir: format!("{}/.git", ROOT), is_bare: false }
}

fn config() -> Config {
    Config::merge(GlobalConfig::default(), LocalConfig::default(), None)
}

fn opened(names: &[&str]) -> Vec<WorktreeInfo> {
    let mut s = format!("worktree {}\nHEAD 1111111111111111111111111111111111111111\nbranch refs/heads/main\n\n", ROOT);
    for n in names {
        s.push_str(&format!("worktree {}/.worktrees/{}\nHEAD 1111111111111111111111111111111111111111\nbranch refs/heads/{}\n\n", ROOT, n, n));
    }
    parse_worktree_list(&s, ROOT)
}

fn wt(name: &str) -> String {
    format!("{}/.worktrees/{}", ROOT, name)
}

#[test]
fn test_close_removes_worktree_keeps_branch() {
    let wts = opened(&["feature-close"]);
    let (mut flow, action) = CloseFlow::start(&repo(), &config(), &wts, Some("feature-close"), ROOT, false);
    match action {
        CloseAction::Remove { path } => assert_eq!(path, wt("feature-close")),
        other => panic!("gwik close failed: {:?}", other),
    }
    match flow.step(CloseEvent::Removed) {
        CloseAction::Done { removed, .. } => assert_eq!(removed, "feature-close"),
        other => panic!("gwik close failed: {:?}", other),
    }
    assert_eq!(flow.phase, ClosePhase::Finished);
    assert!(matches!(flow.step(CloseEvent::Removed), CloseAction::Stopped), "Branch should NOT be deleted");
}

#[test]
fn test_close_outputs_cd_to_main_repo() {
    let wts = opened(&["feature-cd"]);
    let (mut flow, _) = CloseFlow::start(&repo(), &config(), &wts, Some("feature-cd"), ROOT, false);
    match flow.step(CloseEvent::Removed) {
        CloseAction::Done { cd, .. } => {
            assert!(cd.starts_with("cd "), "Output should be a cd command");
            assert!(!cd.contains(".worktrees"), "Should point to main repo, not worktree");
            assert_eq!(cd, "cd /tmp/repo");
        }
        other => panic!("{:?}", other),
    }
}

#[test]
fn test_close_not_found_shows_available() {
    let wts = opened(&["feature-a", "feature-b"]);
    let (flow, action) = CloseFlow::start(&repo(), &config(), &wts, Some("nonexistent"), ROOT, false);
    assert_eq!(flow.phase, ClosePhase::Finished);
    match action {
        CloseAction::Failed { error } => {
            assert!(error.message().contains("not found"), "Error should mention not found");
            match error {
                GwikError::NotFound { available, .. } => {
                    let report = gwik::commands::cd::available_report(&available);
                    assert!(report.contains("Available worktrees"), "Should show available worktrees");
                    assert_eq!(available, vec!["feature-a", "feature-b"]);
                }
                other => panic!("Should fail for non-existent worktree: {:?}", other),
            }
        }
        other => panic!("Should fail for non-existent worktree: {:?}", other),
    }
}

#[test]
fn test_close_refuses_with_uncommitted_changes() {
    let wts = opened(&["feature-dirty"]);
    let (mut flow, _) = CloseFlow::start(&repo(), &config(), &wts, Some("feature-dirty"), ROOT, false);
    let stderr = format!(
        "fatal: '{}' contains modified or untracked files, use --force to delete it\n",
        wt("feature-dirty")
    );
    match flow.step(CloseEvent::RemoveFailed { stderr }) {
        CloseAction::Failed { error } => {
            let msg = error.message();
            assert!(
                msg.contains("uncommitted") || msg.contains("modified") || msg.contains("untracked"),
                "Error should mention uncommitted changes"
            );
            assert_eq!(error, GwikError::UncommittedChanges);
        }
        other => panic!("Should refuse to delete with uncommitted changes: {:?}", other),
    }
    assert!(matches!(flow.step(CloseEvent::Removed), CloseAction::Stopped), "Worktree should remain");
}

#[test]
fn test_close_current_worktree_with_yes() {
    let wts = opened(&["feature-current"]);
    let cwd = format!("{}/src", wt("feature-current"));
    let (_, action) = CloseFlow::start(&repo(), &config(), &wts, None, &cwd, true);
    match action {
        CloseAction::Remove { path } => assert_eq!(path, wt("feature-current"), "Current worktree should be removed"),
        other => panic!("Should close current worktree: {:?}", other),
    }
}

#[test]
fn test_close_from_inside_requires_confirmation() {
    let wts = opened(&["feature-inside"]);
    let cwd = wt("feature-inside");
    let (mut flow, action) = CloseFlow::start(&repo(), &config(), &wts, None, &cwd, false);
    assert!(matches!(action, CloseAction::Confirm), "Either should prompt/abort or succeed");
    assert!(matches!(flow.step(CloseEvent::Answer { line: String::new() }), CloseAction::Aborted));
}

#[test]
fn test_close_specific_worktree_by_name() {
    let wts = opened(&["feature-x", "feature-y", "feature-z"]);
    let (_, action) = CloseFlow::start(&repo(), &config(), &wts, Some("feature-y"), ROOT, false);
    match action {
        CloseAction::Remove { path } => {
            assert_eq!(path, wt("feature-y"), "feature-y should be removed");
            assert!(!path.ends_with("feature-x"), "feature-x should remain");
            assert!(!path.ends_with("feature-z"), "feature-z should remain");
        }
        other => panic!("{:?}", other),
    }
}

#[test]
fn test_close_outputs_removal_message() {
    let wts = opened(&["feature-msg"]);
    let (mut flow, _) = CloseFlow::start(&repo(), &config(), &wts, Some("feature-msg"), ROOT, false);
    match flow.step(CloseEvent::Removed) {
        CloseAction::Done { removed, .. } => {
            let msg = removal_message(&removed);
            assert!(msg.contains("Removed worktree"), "Should output removal confirmation");
            assert_eq!(msg, "Removed worktree: feature-msg");
        }
        other => panic!("{:?}", other),
    }
}

#[test]
fn test_close_other_worktree_from_worktree() {
    let wts = opened(&["feature-one", "feature-two"]);
    let cwd = wt("feature-one");
    let (_, action) = CloseFlow::start(&repo(), &config(), &wts, Some("feature-two"), &cwd, false);
    match action {
        CloseAction::Remove { path } => {
            assert_eq!(path, wt("feature-two"), "Target worktree should be removed");
            assert_ne!(path, cwd, "Current worktree should remain");
        }
        other => panic!("Should close other worktree: {:?}", other),
    }
}

#[test]
fn test_close_nonexistent_no_worktrees() {
    let wts = opened(&[]);
    let (_, action) = CloseFlow::start(&repo(), &config(), &wts, Some("ghost"), ROOT, false);
    match action {
        CloseAction::Failed { error } => assert!(error.message().contains("not found"), "Should indicate worktree not found"),
        other => panic!("{:?}", other),
    }
}

#[test]
fn close_without_name_outside_any_worktree_fails() {
    let wts = opened(&["feature-a"]);
    let r = resolve_target(None, &wts, "/tmp/repo/.worktrees", "/tmp/repo/.worktrees/feature-ab");
    assert_eq!(r, Err(GwikError::NotInsideWorktree));
    assert_eq!(
        GwikError::NotInsideWorktree.message(),
        "Not inside a worktree. Specify a worktree name to close."
    );
}

#[test]
fn close_confirmation_accepts_yes_in_any_case() {
    let wts = opened(&["feature-q"]);
    let cwd = wt("feature-q");
    let (mut flow, _) = CloseFlow::start(&repo(), &config(), &wts, None, &cwd, false);
    match flow.step(CloseEvent::Answer { line: "  YES\n".to_string() }) {
        CloseAction::Remove { path } => assert_eq!(path, cwd),
        other => panic!("{:?}", other),
    }
    match flow.step(CloseEvent::RemoveFailed { stderr: "fatal: boom".to_string() }) {
        CloseAction::Failed { error } => assert_eq!(error, GwikError::RemoveFailed { stderr: "fatal: boom".to_string() }),
        other => panic!("{:?}", other),
    }
}

#[test]
fn close_of_bare_repository_returns_to_source_worktree() {
    let bare = GitRepo { root: "/srv/p.git".to_string(), git_dir: "/srv/p.git".to_string(), is_bare: true };
    let mut local = LocalConfig::default();
    local.source_worktree = Some("main".to_string());
    let cfg = Config::merge(GlobalConfig::default(), local, None);
    let wts = vec![WorktreeInfo { path: "/srv/p.git/.worktrees/x".to_string() }];
    let (mut flow, _) = CloseFlow::start(&bare, &cfg, &wts, Some("x"), "/srv", false);
    match flow.step(CloseEvent::Removed) {
        CloseAction::Done { cd, .. } => assert_eq!(cd, "cd /srv/p.git/main"),
        other => panic!("{:?}", other),
    }
}
