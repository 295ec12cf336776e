use gwik::config::{global_config_path, local_config_path, expand_tilde, Config, GlobalConfig, LocalConfig};

fn global(dir: Option<&str>, roots: &[&str]) -> GlobalConfig {
    GlobalConfig { worktree_dir: dir.map(|s| s.to_string()), roots: roots.iter().map(|s| s.to_string()).collect() }
}

fn local(dir: Option<&str>, cmds: &[&str]) -> LocalConfig {
    LocalConfig {
        worktree_dir: dir.map(|s| s.to_string()),
        cmds: cmds.iter().map(|s| s.to_string()).collect(),
        source_worktree: None,
    }
}

#[test]
fn test_worktree_dir_in_git() {
    let config = Config {
        worktree_dir: ".git/.worktrees".to_string(),
        roots: vec![],
        cmds: vec![],
        source_worktree: None,
    };
    assert!(config.worktree_dir_in_git());

    let config2 = Config {
        worktree_dir: ".worktrees".to_string(),
        roots: vec![],
        cmds: vec![],
        source_worktree: None,
    };
    assert!(!config2.worktree_dir_in_git());
}

#[test]
fn worktree_dir_in_git_with_backslash() {
    let c = Config { worktree_dir: ".git\\wt".to_string(), roots: vec![], cmds: vec![], source_worktree: None };
    assert!(c.worktree_dir_in_git());
    let d = Config { worktree_dir: ".gitx/wt".to_string(), roots: vec![], cmds: vec![], source_worktree: None };
    assert!(!d.worktree_dir_in_git());
}

#[test]
fn repository_scope_worktree_dir_wins() {
    let c = Config::merge(global(Some("user-wt"), &[]), local(Some("repo-wt"), &[]), Some("/home/u"));
    assert_eq!(c.worktree_dir, "repo-wt");
}

#[test]
fn absent_repository_scope_falls_through_to_user_scope() {
    let c = Config::merge(global(Some("user-wt"), &[]), local(None, &[]), Some("/home/u"));
    assert_eq!(c.worktree_dir, "user-wt");
}

#[test]
fn absent_both_yields_default() {
    let c = Config::merge(GlobalConfig::default(), LocalConfig::default(), None);
    assert_eq!(c.worktree_dir, ".worktrees");
    assert!(c.roots.is_empty());
    assert!(c.cmds.is_empty());
    assert_eq!(c.source_worktree, None);
}

#[test]
fn commands_come_from_repository_scope_and_roots_from_user_scope() {
    let mut l = local(None, &["make setup", "touch $DST/x"]);
    l.source_worktree = Some("main".to_string());
    let c = Config::merge(global(None, &["~/ghq", "/srv/src", "~", "rel"]), l, Some("/home/u"));
    assert_eq!(c.cmds, vec!["make setup", "touch $DST/x"]);
    assert_eq!(c.roots, vec!["/home/u/ghq", "/srv/src", "/home/u", "rel"]);
    assert_eq!(c.source_worktree, Some("main".to_string()));
}

#[test]
fn roots_needing_home_are_dropped_without_one() {
    let c = Config::merge(global(None, &["~/ghq", "/srv/src", "~"]), local(None, &[]), None);
    assert_eq!(c.roots, vec!["/srv/src"]);
}

#[test]
fn tilde_expansion() {
    assert_eq!(expand_tilde("~/a/b", Some("/home/u")), Some("/home/u/a/b".to_string()));
    assert_eq!(expand_tilde("~", Some("/home/u")), Some("/home/u".to_string()));
    assert_eq!(expand_tilde("~user/x", Some("/home/u")), Some("~user/x".to_string()));
    assert_eq!(expand_tilde("~/x", None), None);
    assert_eq!(expand_tilde("/abs", None), Some("/abs".to_string()));
    assert_eq!(expand_tilde("~/x", Some("/home/u/")), Some("/home/u/x".to_string()));
}

#[test]
fn load_keeps_worktree_dir_and_commands() {
    let c = Config::load(global(Some("g"), &["/srv"]), local(None, &["echo hi"]));
    assert_eq!(c.worktree_dir, "g");
    assert_eq!(c.cmds, vec!["echo hi"]);
    assert_eq!(c.roots, vec!["/srv"]);
}

#[test]
fn configuration_file_paths() {
    assert_eq!(global_config_path("/home/u/.config"), "/home/u/.config/gwik/config.toml");
    assert_eq!(local_config_path("/tmp/repo/.git"), "/tmp/repo/.git/gwik.toml");
}
