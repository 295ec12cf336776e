//! The effective configuration, merged from a user-scope and a
//! repository-scope source.
use vstd::prelude::*;

use crate::path::{join, join_path};
use crate::text::{chars_of, has_prefix, opt_view, views_of};

verus! {

/// Worktree directory name used when neither source names one.
pub const DEFAULT_WORKTREE_DIR: &'static str = ".worktrees";

/// Settings read from the user-scope file.
#[derive(Debug)]
pub struct GlobalConfig {
    pub worktree_dir: Option<String>,
    pub roots: Vec<String>,
}

/// Settings read from the repository-scope file.
#[derive(Debug)]
pub struct LocalConfig {
    pub worktree_dir: Option<String>,
    pub cmds: Vec<String>,
    /// For a bare repository, the worktree (under the root) that counts as
    /// the main working directory.
    pub source_worktree: Option<String>,
}

/// The effective configuration.
#[derive(Debug)]
pub struct Config {
    pub worktree_dir: String,
    pub roots: Vec<String>,
    pub cmds: Vec<String>,
    pub source_worktree: Option<String>,
}

impl Default for GlobalConfig {
    fn default() -> (r: GlobalConfig)
        ensures
            r.worktree_dir is None,
            r.roots@.len() == 0,
    {
        GlobalConfig { worktree_dir: None, roots: Vec::new() }
    }
}

impl Default for LocalConfig {
    fn default() -> (r: LocalConfig)
        ensures
            r.worktree_dir is None,
            r.cmds@.len() == 0,
            r.source_worktree is None,
    {
        LocalConfig { worktree_dir: None, cmds: Vec::new(), source_worktree: None }
    }
}

/// The worktree directory name: the repository-scope value, else the
/// user-scope value, else the default.
pub open spec fn effective_worktree_dir(local: Option<Seq<char>>, global: Option<Seq<char>>) -> Seq<
    char,
> {
    match local {
        Some(l) => l,
        None => match global {
            Some(g) => g,
            None => DEFAULT_WORKTREE_DIR@,
        },
    }
}

/// A scan root with a leading `~` expanded against `home`; `None` where it
/// needs a home directory and there is none.
pub open spec fn expanded_root(root: Seq<char>, home: Option<Seq<char>>) -> Option<Seq<char>> {
    if seq!['~', '/'].is_prefix_of(root) {
        match home {
            Some(h) => Some(join_path(h, root.skip(2))),
            None => None,
        }
    } else if root == seq!['~'] {
        home
    } else {
        Some(root)
    }
}

/// The scan roots, expanded, in order, those that cannot be expanded dropped.
pub open spec fn expanded_roots(roots: Seq<Seq<char>>, home: Option<Seq<char>>) -> Seq<Seq<char>>
    decreases roots.len(),
{
    if roots.len() == 0 {
        Seq::empty()
    } else {
        let prev = expanded_roots(roots.drop_last(), home);
        match expanded_root(roots.last(), home) {
            Some(p) => prev.push(p),
            None => prev,
        }
    }
}

/// Whether a worktree directory name places it inside the metadata directory.
pub open spec fn in_metadata_dir(worktree_dir: Seq<char>) -> bool {
    seq!['.', 'g', 'i', 't', '/'].is_prefix_of(worktree_dir)
        || seq!['.', 'g', 'i', 't', '\\'].is_prefix_of(worktree_dir)
}

/// What the merge of `global` and `local` yields with home directory `home`.
pub open spec fn merged(global: GlobalConfig, local: LocalConfig, home: Option<Seq<char>>, r: Config) -> bool {
    &&& r.worktree_dir@ == effective_worktree_dir(opt_view(local.worktree_dir), opt_view(global.worktree_dir))
    &&& views_of(r.roots@) == expanded_roots(views_of(global.roots@), home)
    &&& views_of(r.cmds@) == views_of(local.cmds@)
    &&& opt_view(r.source_worktree) == opt_view(local.source_worktree)
}

/// The repository-scope worktree directory wins over the user-scope one; an
/// absent repository-scope value falls through to the user-scope value; with
/// neither, the name is `.worktrees`.
pub proof fn lemma_worktree_dir_precedence(local: Option<Seq<char>>, global: Option<Seq<char>>)
    ensures
        local is Some ==> effective_worktree_dir(local, global) == local->0,
        local is None && global is Some ==> effective_worktree_dir(local, global) == global->0,
        local is None && global is None ==> effective_worktree_dir(local, global) == ".worktrees"@,
{
}

/// Relies on `dirs::home_dir`: the invoking user's home directory, if one
/// can be found; it depends on the environment.
#[verifier::external_body]
fn home_dir() -> (r: Option<String>) {
    match dirs::home_dir() {
        Some(p) => Some(p.to_string_lossy().into_owned()),
        None => None,
    }
}

/// Expands a leading `~` of a scan root (see [`expanded_root`]).
pub fn expand_tilde(path: &str, home: Option<&str>) -> (r: Option<String>)
    ensures
        opt_view(r) == expanded_root(path@, match home { Some(h) => Some(h@), None => None }),
{
    let v = chars_of(path);
    if v.len() >= 2 && v[0] == '~' && v[1] == '/' {
        assert(seq!['~', '/'].is_prefix_of(v@)) by {
            assert(v@.take(2) =~= seq!['~', '/']);
        }
        match home {
            Some(h) => {
                let rest = crate::text::string_from(&v, 2);
                Some(join(h, rest.as_str()))
            },
            None => None,
        }
    } else {
        assert(!seq!['~', '/'].is_prefix_of(v@)) by {
            if seq!['~', '/'].is_prefix_of(v@) {
                assert(v@[0] == seq!['~', '/'][0] && v@[1] == seq!['~', '/'][1]);
            }
        }
        if v.len() == 1 && v[0] == '~' {
            assert(v@ =~= seq!['~']);
            match home {
                Some(h) => Some(h.to_owned()),
                None => None,
            }
        } else {
            assert(v@ != seq!['~']) by {
                if v@ == seq!['~'] {
                    assert(v@.len() == 1 && v@[0] == '~');
                }
            }
            Some(path.to_owned())
        }
    }
}

impl Config {
    /// Merges the two sources with home directory `home`: the repository
    /// scope decides the worktree directory name where it gives one; scan
    /// roots come from the user scope only, tilde-expanded; post-creation
    /// commands and the source worktree come from the repository scope only.
    pub fn merge(global: GlobalConfig, local: LocalConfig, home: Option<&str>) -> (r: Config)
        ensures
            merged(global, local, match home { Some(h) => Some(h@), None => None }, r),
    {
        let ghost g = global;
        let ghost l = local;
        let ghost hv = match home { Some(h) => Some(h@), None => None::<Seq<char>> };
        let worktree_dir = match local.worktree_dir {
            Some(d) => d,
            None => match global.worktree_dir {
                Some(d) => d,
                None => DEFAULT_WORKTREE_DIR.to_owned(),
            },
        };
        let mut roots: Vec<String> = Vec::new();
        let mut i: usize = 0;
        while i < global.roots.len()
            invariant
                i <= global.roots@.len(),
                global.roots@ == g.roots@,
                hv == match home { Some(h) => Some(h@), None => None::<Seq<char>> },
                views_of(roots@) == expanded_roots(views_of(g.roots@).take(i as int), hv),
            decreases global.roots@.len() - i,
        {
            proof {
                let t = views_of(g.roots@).take(i + 1);
                assert(t.drop_last() =~= views_of(g.roots@).take(i as int));
                assert(t.last() == global.roots@[i as int]@);
            }
            let e = expand_tilde(global.roots[i].as_str(), home);
            let ghost before = roots@;
            let ghost t = views_of(g.roots@).take(i + 1);
            assert(opt_view(e) == expanded_root(t.last(), hv));
            if let Some(p) = e {
                roots.push(p);
                assert(views_of(roots@) =~= views_of(before).push(p@));
            }
            assert(views_of(roots@) == expanded_roots(t, hv));
            i = i + 1;
        }
        assert(views_of(g.roots@).take(i as int) =~= views_of(g.roots@));
        Config { worktree_dir, roots, cmds: local.cmds, source_worktree: local.source_worktree }
    }

    /// Merges the two sources against the invoking user's home directory.
    pub fn load(global: GlobalConfig, local: LocalConfig) -> (r: Config)
        ensures
            exists|home: Option<Seq<char>>| merged(global, local, home, r),
    {
        let home = home_dir();
        let r = match &home {
            Some(h) => Config::merge(global, local, Some(h.as_str())),
            None => Config::merge(global, local, None),
        };
        r
    }

    /// Whether the worktree directory lies inside the metadata directory, so
    /// that it needs no exclusion file.
    pub fn worktree_dir_in_git(&self) -> (r: bool)
        ensures
            r == in_metadata_dir(self.worktree_dir@),
    {
        let v = chars_of(self.worktree_dir.as_str());
        let a = chars_of(".git/");
        let b = chars_of(".git\\");
        proof {
            reveal_strlit(".git/");
            reveal_strlit(".git\\");
            assert(".git/"@ =~= seq!['.', 'g', 'i', 't', '/']);
            assert(".git\\"@ =~= seq!['.', 'g', 'i', 't', '\\']);
        }
        has_prefix(&v, &a) || has_prefix(&v, &b)
    }
}

/// The user-scope configuration file under the per-user configuration directory.
pub fn global_config_path(config_dir: &str) -> (r: String)
    ensures
        r@ == join_path(join_path(config_dir@, "gwik"@), "config.toml"@),
{
    let d = join(config_dir, "gwik");
    join(d.as_str(), "config.toml")
}

/// The repository-scope configuration file inside the metadata directory.
pub fn local_config_path(git_dir: &str) -> (r: String)
    ensures
        r@ == join_path(git_dir@, "gwik.toml"@),
{
    join(git_dir, "gwik.toml")
}

} // verus!
