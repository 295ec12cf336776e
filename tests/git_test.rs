use gwik::git::{classify_removal_failure, parse_worktree_list, GitCall, GitRepo, WorktreeInfo};
use gwik::error::GwikError;

fn porcelain(root: &str, names: &[&str]) -> String {
    let mut s = format!("worktree {}\nHEAD 1111111111111111111111111111111111111111\nbranch refs/heads/main\n\n", root);
    for n in names {
        s.push_str(&format!(
            "worktree {}/.worktrees/{}\nHEAD 2222222222222222222222222222222222222222\nbranch refs/heads/{}\n\n",
            root, n, n
        ));
    }
    s
}

fn paths(v: &[WorktreeInfo]) -> Vec<String> {
    v.iter().map(|w| w.path.clone()).collect()
}

#[test]
fn test_branch_to_dirname() {
    assert_eq!(GitRepo::branch_to_dirname("feature/login"), "feature-login");
    assert_eq!(GitRepo::branch_to_dirname("bugfix-auth"), "bugfix-auth");
    assert_eq!(GitRepo::branch_to_dirname("a/b/c"), "a-b-c");
}

#[test]
fn dirname_is_idempotent() {
    for b in ["feature/login", "a/b/c", "/lead", "trail/", "plain", ""] {
        let once = GitRepo::branch_to_dirname(b);
        assert!(!once.contains('/'));
        assert_eq!(GitRepo::branch_to_dirname(&once), once);
    }
    assert_eq!(GitRepo::branch_to_dirname("a-b"), GitRepo::branch_to_dirname("a/b"));
}

#[test]
fn listing_excludes_primary_with_no_worktrees() {
    let out = porcelain("/tmp/repo", &[]);
    assert!(parse_worktree_list(&out, "/tmp/repo").is_empty());
}

#[test]
fn listing_excludes_primary_with_one_worktree() {
    let out = porcelain("/tmp/repo", &["feature-x"]);
    assert_eq!(paths(&parse_worktree_list(&out, "/tmp/repo")), vec!["/tmp/repo/.worktrees/feature-x"]);
}

#[test]
fn listing_excludes_primary_with_many_worktrees() {
    let out = porcelain("/tmp/repo", &["a", "b", "c"]);
    assert_eq!(
        paths(&parse_worktree_list(&out, "/tmp/repo")),
        vec!["/tmp/repo/.worktrees/a", "/tmp/repo/.worktrees/b", "/tmp/repo/.worktrees/c"]
    );
}

#[test]
fn listing_keeps_primary_of_another_root_and_handles_crlf() {
    let out = "worktree /r\r\nbare\r\n\r\nworktree /r/wt\r\ndetached\r\nworktree /last";
    assert_eq!(paths(&parse_worktree_list(out, "/r")), vec!["/r/wt", "/last"]);
    assert_eq!(paths(&parse_worktree_list(out, "/other")), vec!["/r", "/r/wt", "/last"]);
}

#[test]
fn listing_ignores_other_fields() {
    let out = "worktree /r\nHEAD abc\nlocked reason worktree /x\n prunable worktree /y\n";
    assert!(parse_worktree_list(out, "/r").is_empty());
    assert!(parse_worktree_list("", "/r").is_empty());
}

#[test]
fn removal_failure_with_local_changes_is_told_apart() {
    let e = classify_removal_failure(
        "fatal: '/r/.worktrees/x' contains modified or untracked files, use --force to delete it\n",
    );
    assert_eq!(e, GwikError::UncommittedChanges);
    assert!(e.message().contains("uncommitted"));
    let other = classify_removal_failure("fatal: not a working tree");
    assert_eq!(other, GwikError::RemoveFailed { stderr: "fatal: not a working tree".to_string() });
    assert_eq!(other.message(), "git worktree remove failed: fatal: not a working tree");
}

#[test]
fn repository_root_from_metadata_dir() {
    let r = GitRepo::from_git_dir("/home/u/proj/.git".to_string(), false).unwrap();
    assert_eq!(r.root, "/home/u/proj");
    assert!(!r.is_bare);
    let b = GitRepo::from_git_dir("/srv/proj.git".to_string(), true).unwrap();
    assert_eq!(b.root, "/srv/proj.git");
    assert_eq!(GitRepo::from_git_dir("/.git".to_string(), false).unwrap().root, "/");
    assert!(GitRepo::from_git_dir("/".to_string(), false).is_none());
}

#[test]
fn worktree_dir_is_under_root() {
    let r = GitRepo { root: "/tmp/repo".to_string(), git_dir: "/tmp/repo/.git".to_string(), is_bare: false };
    assert_eq!(r.worktree_dir(".worktrees"), "/tmp/repo/.worktrees");
    assert_eq!(r.worktree_dir(".git/.worktrees"), "/tmp/repo/.git/.worktrees");
    let bare = GitRepo { root: "/srv/p.git".to_string(), git_dir: "/srv/p.git".to_string(), is_bare: true };
    assert_eq!(bare.worktree_dir(".worktrees"), "/srv/p.git/.worktrees");
}

#[test]
fn working_dir_prefers_source_worktree_of_bare_repository() {
    let bare = GitRepo { root: "/srv/p.git".to_string(), git_dir: "/srv/p.git".to_string(), is_bare: true };
    assert_eq!(bare.working_dir(Some("main")), "/srv/p.git/main");
    assert_eq!(bare.working_dir(None), "/srv/p.git");
    let plain = GitRepo { root: "/tmp/repo".to_string(), git_dir: "/tmp/repo/.git".to_string(), is_bare: false };
    assert_eq!(plain.working_dir(Some("main")), "/tmp/repo");
}

#[test]
fn git_call_arguments() {
    assert_eq!(GitCall::ListWorktrees.args(), vec!["worktree", "list", "--porcelain"]);
    assert_eq!(
        GitCall::LocalBranchExists { branch: "feature/x".to_string() }.args(),
        vec!["show-ref", "--verify", "--quiet", "refs/heads/feature/x"]
    );
    assert_eq!(
        GitCall::RemoteBranchExists { branch: "origin/x".to_string() }.args(),
        vec!["show-ref", "--verify", "--quiet", "refs/remotes/origin/x"]
    );
    assert_eq!(
        GitCall::AddNewBranch { path: "/p".to_string(), branch: "b".to_string() }.args(),
        vec!["worktree", "add", "-b", "b", "/p"]
    );
    assert_eq!(
        GitCall::AddExistingBranch { path: "/p".to_string(), branch: "b".to_string() }.args(),
        vec!["worktree", "add", "/p", "b"]
    );
    assert_eq!(
        GitCall::AddTracking { path: "/p".to_string(), local: "x".to_string(), remote: "origin/x".to_string() }
            .args(),
        vec!["worktree", "add", "-b", "x", "/p", "origin/x"]
    );
    assert_eq!(GitCall::RemoveWorktree { path: "/p".to_string() }.args(), vec!["worktree", "remove", "/p"]);
    assert_eq!(GitCall::IsBareRepository.args(), vec!["rev-parse", "--is-bare-repository"]);
    assert_eq!(GitCall::CommonDir.args(), vec!["rev-parse", "--git-common-dir"]);
}

#[test]
fn listing_outcome_of_the_tool() {
    let r = GitRepo { root: "/tmp/repo".to_string(), git_dir: "/tmp/repo/.git".to_string(), is_bare: false };
    let ok = r.list_worktrees(Ok(porcelain("/tmp/repo", &["x"]))).unwrap();
    assert_eq!(paths(&ok), vec!["/tmp/repo/.worktrees/x"]);
    let err = r.list_worktrees(Err("fatal: not a git repository".to_string())).unwrap_err();
    assert_eq!(err, GwikError::ListFailed { stderr: "fatal: not a git repository".to_string() });
    assert_eq!(err.message(), "git worktree list failed: fatal: not a git repository");
}

#[test]
fn current_worktree_is_the_one_containing_cwd() {
    let wts = parse_worktree_list(&porcelain("/tmp/repo", &["a", "ab"]), "/tmp/repo");
    assert_eq!(GitRepo::current_worktree("/tmp/repo/.worktrees/ab/src", &wts), Some("/tmp/repo/.worktrees/ab".to_string()));
    assert_eq!(GitRepo::current_worktree("/tmp/repo/.worktrees/a", &wts), Some("/tmp/repo/.worktrees/a".to_string()));
    assert_eq!(GitRepo::current_worktree("/tmp/repo", &wts), None);
}
