//! The repository handle, worktree naming, and the parser of the
//! machine-readable worktree listing.
use vstd::prelude::*;
use vstd::string::StringExecFns;

use crate::error::GwikError;
use crate::path::{is_within, join, join_path, last_segment, path_within};
use crate::text::{chars_of, contains_chars, has_prefix, occurs_in, push_char, string_from, views_of};

verus! {

/// The line that opens each record of the listing starts with this.
pub const RECORD_PREFIX: &'static str = "worktree ";

/// What the tool prints when a worktree to remove holds local changes.
pub const DIRTY_WORKTREE_MARK: &'static str = "contains modified or untracked files";

/// A located repository.
#[derive(Clone, Debug)]
pub struct GitRepo {
    /// The repository root: the metadata directory itself for a bare
    /// repository, its parent otherwise.
    pub root: String,
    /// The shared metadata directory, common to all worktrees.
    pub git_dir: String,
    /// Whether the repository is bare.
    pub is_bare: bool,
}

/// One registered worktree other than the primary checkout.
#[derive(Clone, Debug, PartialEq, Eq)]
pub struct WorktreeInfo {
    pub path: String,
}

/// The paths of a sequence of worktree entries.
pub open spec fn paths_of(v: Seq<WorktreeInfo>) -> Seq<Seq<char>> {
    v.map_values(|w: WorktreeInfo| w.path@)
}

/// Directory-safe name of a branch: every `/` becomes `-`.
pub open spec fn dirname_of(branch: Seq<char>) -> Seq<char> {
    branch.map_values(|c: char| if c == '/' { '-' } else { c })
}

/// The parent of a path without a trailing separator; `None` for a path that
/// has no final segment.
pub open spec fn parent_of(p: Seq<char>) -> Option<Seq<char>> {
    let seg = last_segment(p);
    let rest = p.take(p.len() - seg.len());
    if seg.len() == 0 {
        None
    } else if rest.len() <= 1 {
        Some(rest)
    } else {
        Some(rest.drop_last())
    }
}

/// The root of a repository whose metadata directory is `git_dir`.
pub open spec fn root_of(git_dir: Seq<char>, is_bare: bool) -> Option<Seq<char>> {
    if is_bare {
        Some(git_dir)
    } else {
        parent_of(git_dir)
    }
}

/// The main working directory: for a bare repository with a configured
/// source worktree, that worktree under the root; otherwise the root.
pub open spec fn main_dir(root: Seq<char>, is_bare: bool, source: Option<Seq<char>>) -> Seq<char> {
    if is_bare && source is Some {
        join_path(root, source->0)
    } else {
        root
    }
}

/// The first of `paths` that `cwd` lies in.
pub open spec fn first_containing(paths: Seq<Seq<char>>, cwd: Seq<char>) -> Option<Seq<char>>
    decreases paths.len(),
{
    if paths.len() == 0 {
        None
    } else if path_within(cwd, paths[0]) {
        Some(paths[0])
    } else {
        first_containing(paths.drop_first(), cwd)
    }
}

/// `line` without one trailing carriage return.
pub open spec fn strip_cr(line: Seq<char>) -> Seq<char> {
    if line.len() > 0 && line.last() == '\r' {
        line.drop_last()
    } else {
        line
    }
}

/// The lines of `s`, the current one begun with `cur`: a line ends at `\n`,
/// with a `\r` before it dropped; an empty rest after the last `\n` is no line.
pub open spec fn lines_from(s: Seq<char>, cur: Seq<char>) -> Seq<Seq<char>>
    decreases s.len(),
{
    if s.len() == 0 {
        if cur.len() == 0 {
            Seq::empty()
        } else {
            seq![cur]
        }
    } else if s[0] == '\n' {
        seq![strip_cr(cur)] + lines_from(s.drop_first(), Seq::empty())
    } else {
        lines_from(s.drop_first(), cur.push(s[0]))
    }
}

/// The lines of `s`.
pub open spec fn lines_of(s: Seq<char>) -> Seq<Seq<char>> {
    lines_from(s, Seq::empty())
}

/// The worktree path that one line contributes: the rest of a record's
/// opening line, unless it is the primary checkout `root`.
pub open spec fn record_entry(line: Seq<char>, root: Seq<char>) -> Seq<Seq<char>> {
    let path = line.skip(RECORD_PREFIX@.len() as int);
    if RECORD_PREFIX@.is_prefix_of(line) && path != root {
        seq![path]
    } else {
        Seq::empty()
    }
}

/// The worktree paths that a listing's lines name, in order, without `root`.
pub open spec fn listed_worktrees(lines: Seq<Seq<char>>, root: Seq<char>) -> Seq<Seq<char>>
    decreases lines.len(),
{
    if lines.len() == 0 {
        Seq::empty()
    } else {
        listed_worktrees(lines.drop_last(), root) + record_entry(lines.last(), root)
    }
}

/// The worktrees of the listing `out` of a repository rooted at `root`.
pub open spec fn worktrees_in_listing(out: Seq<char>, root: Seq<char>) -> Seq<Seq<char>> {
    listed_worktrees(lines_of(out), root)
}

/// The directory name of a branch never holds a separator, and naming an
/// already converted name again changes nothing.
pub proof fn lemma_dirname_idempotent(branch: Seq<char>)
    ensures
        forall|i: int| 0 <= i < dirname_of(branch).len() ==> dirname_of(branch)[i] != '/',
        dirname_of(dirname_of(branch)) == dirname_of(branch),
{
    assert(dirname_of(dirname_of(branch)) =~= dirname_of(branch));
}

/// A listing never holds the primary checkout, whatever the number of records.
pub proof fn lemma_listing_excludes_root(lines: Seq<Seq<char>>, root: Seq<char>)
    ensures
        forall|i: int| 0 <= i < listed_worktrees(lines, root).len()
            ==> #[trigger] listed_worktrees(lines, root)[i] != root,
    decreases lines.len(),
{
    if lines.len() > 0 {
        lemma_listing_excludes_root(lines.drop_last(), root);
        let prev = listed_worktrees(lines.drop_last(), root);
        let e = record_entry(lines.last(), root);
        assert forall|i: int| 0 <= i < listed_worktrees(lines, root).len()
            implies #[trigger] listed_worktrees(lines, root)[i] != root by {
            if i < prev.len() {
                assert(listed_worktrees(lines, root)[i] == prev[i]);
            } else {
                assert(listed_worktrees(lines, root)[i] == e[i - prev.len()]);
            }
        }
    }
}

impl GitRepo {
    /// The repository whose metadata directory is `git_dir`; `None` where an
    /// ordinary repository's metadata directory has no parent.
    pub fn from_git_dir(git_dir: String, is_bare: bool) -> (r: Option<GitRepo>)
        ensures
            r is Some <==> root_of(git_dir@, is_bare) is Some,
            r is Some ==> r->0.root@ == root_of(git_dir@, is_bare)->0 && r->0.git_dir@ == git_dir@
                && r->0.is_bare == is_bare,
    {
        if is_bare {
            return Some(GitRepo { root: git_dir.clone(), git_dir, is_bare });
        }
        let seg = crate::path::file_name(git_dir.as_str());
        let v = chars_of(git_dir.as_str());
        let sv = chars_of(seg.as_str());
        proof {
            crate::path::lemma_last_segment_len(git_dir@);
        }
        if sv.len() == 0 {
            return None;
        }
        let keep = v.len() - sv.len();
        let rest_len = if keep <= 1 { keep } else { keep - 1 };
        let mut root = String::new();
        let mut i: usize = 0;
        while i < rest_len
            invariant
                i <= rest_len <= v@.len(),
                root@ == v@.take(i as int),
            decreases rest_len - i,
        {
            push_char(&mut root, v[i]);
            i = i + 1;
            assert(root@ =~= v@.take(i as int));
        }
        proof {
            let rest = git_dir@.take(git_dir@.len() - last_segment(git_dir@).len());
            if keep > 1 {
                assert(root@ =~= rest.drop_last());
            } else {
                assert(root@ =~= rest);
            }
        }
        Some(GitRepo { root, git_dir, is_bare })
    }

    /// The worktrees from the outcome of the listing tool: its output when it
    /// succeeded, parsed (see [`parse_worktree_list`]); its diagnostic when it
    /// failed, as `ListFailed`.
    pub fn list_worktrees(&self, outcome: Result<String, String>) -> (r: Result<Vec<WorktreeInfo>, GwikError>)
        ensures
            match outcome {
                Ok(out) => r is Ok && paths_of(r->Ok_0@) == worktrees_in_listing(out@, self.root@),
                Err(stderr) => r is Err && r->Err_0 is ListFailed && r->Err_0->ListFailed_stderr@ == stderr@,
            },
    {
        match outcome {
            Ok(out) => Ok(parse_worktree_list(out.as_str(), self.root.as_str())),
            Err(stderr) => Err(GwikError::ListFailed { stderr }),
        }
    }

    /// The first listed worktree that `cwd` lies in, if any.
    pub fn current_worktree(cwd: &str, worktrees: &Vec<WorktreeInfo>) -> (r: Option<String>)
        ensures
            match first_containing(paths_of(worktrees@), cwd@) {
                Some(p) => r is Some && r->0@ == p,
                None => r is None,
            },
    {
        let ghost paths = paths_of(worktrees@);
        let mut i: usize = 0;
        assert(paths.skip(0) =~= paths);
        while i < worktrees.len()
            invariant
                i <= worktrees@.len(),
                paths == paths_of(worktrees@),
                first_containing(paths, cwd@) == first_containing(paths.skip(i as int), cwd@),
            decreases worktrees@.len() - i,
        {
            assert(paths.skip(i as int)[0] == paths[i as int]);
            assert(paths[i as int] == worktrees@[i as int].path@);
            assert(paths.skip(i as int).drop_first() =~= paths.skip(i + 1));
            if is_within(cwd, worktrees[i].path.as_str()) {
                return Some(worktrees[i].path.clone());
            }
            i = i + 1;
        }
        None
    }

    /// The directory that holds the worktrees: `worktree_dir_name` under the root.
    pub fn worktree_dir(&self, worktree_dir_name: &str) -> (r: String)
        ensures
            r@ == join_path(self.root@, worktree_dir_name@),
    {
        join(self.root.as_str(), worktree_dir_name)
    }

    /// The main working directory: for a bare repository with a configured
    /// source worktree, that worktree under the root; otherwise the root.
    pub fn working_dir(&self, source_worktree: Option<&str>) -> (r: String)
        ensures
            r@ == main_dir(self.root@, self.is_bare, match source_worktree {
                Some(s) => Some(s@),
                None => None,
            }),
    {
        if self.is_bare {
            if let Some(source) = source_worktree {
                return join(self.root.as_str(), source);
            }
        }
        self.root.clone()
    }

    /// The directory name of a branch: every `/` replaced by `-`.
    pub fn branch_to_dirname(branch: &str) -> (r: String)
        ensures
            r@ == dirname_of(branch@),
    {
        let v = chars_of(branch);
        let mut r = String::new();
        let mut i: usize = 0;
        while i < v.len()
            invariant
                i <= v@.len(),
                v@ == branch@,
                r@ == dirname_of(v@.take(i as int)),
            decreases v@.len() - i,
        {
            let c = v[i];
            push_char(&mut r, if c == '/' { '-' } else { c });
            i = i + 1;
            assert(r@ =~= dirname_of(v@.take(i as int)));
        }
        assert(v@.take(i as int) =~= v@);
        r
    }
}

/// Appends to `r` what `line` contributes to the listing of `root`.
fn add_record(r: &mut Vec<WorktreeInfo>, line: &Vec<char>, prefix: &Vec<char>, root: &String)
    requires
        prefix@ == RECORD_PREFIX@,
    ensures
        paths_of(final(r)@) == paths_of(old(r)@) + record_entry(line@, root@),
{
    if has_prefix(line, prefix) {
        let path = string_from(line, prefix.len());
        if path != *root {
            let ghost before = r@;
            r.push(WorktreeInfo { path });
            assert(paths_of(r@) =~= paths_of(before) + record_entry(line@, root@));
            return;
        }
    }
    assert(paths_of(r@) =~= paths_of(r@) + Seq::<Seq<char>>::empty());
}

/// Parses the machine-readable worktree listing `output` of the repository
/// rooted at `main_root`: one entry per record, in order, without the primary
/// checkout.
pub fn parse_worktree_list(output: &str, main_root: &str) -> (r: Vec<WorktreeInfo>)
    ensures
        paths_of(r@) == worktrees_in_listing(output@, main_root@),
        forall|i: int| 0 <= i < r@.len() ==> #[trigger] r@[i].path@ != main_root@,
{
    let s = chars_of(output);
    let prefix = chars_of(RECORD_PREFIX);
    let root = main_root.to_owned();
    let mut r: Vec<WorktreeInfo> = Vec::new();
    let mut cur: Vec<char> = Vec::new();
    let ghost mut done: Seq<Seq<char>> = Seq::empty();
    let mut i: usize = 0;
    assert(s@.skip(0) =~= s@);
    assert(paths_of(r@) =~= Seq::<Seq<char>>::empty());
    while i < s.len()
        invariant
            s@ == output@,
            prefix@ == RECORD_PREFIX@,
            root@ == main_root@,
            i <= s@.len(),
            lines_of(s@) == done + lines_from(s@.skip(i as int), cur@),
            paths_of(r@) == listed_worktrees(done, root@),
        decreases s@.len() - i,
    {
        let c = s[i];
        let ghost rest = s@.skip(i as int);
        assert(rest[0] == c);
        assert(rest.drop_first() =~= s@.skip(i + 1));
        if c == '\n' {
            let ghost old_cur = cur@;
            if cur.len() > 0 && cur[cur.len() - 1] == '\r' {
                cur.pop();
            }
            assert(cur@ == strip_cr(old_cur));
            add_record(&mut r, &cur, &prefix, &root);
            proof {
                assert(done.push(cur@).drop_last() =~= done);
                assert(done + (seq![cur@] + lines_from(s@.skip(i + 1), Seq::empty()))
                    =~= done.push(cur@) + lines_from(s@.skip(i + 1), Seq::empty()));
                done = done.push(cur@);
            }
            cur = Vec::new();
        } else {
            cur.push(c);
        }
        i = i + 1;
    }
    if cur.len() > 0 {
        add_record(&mut r, &cur, &prefix, &root);
        proof {
            assert(done.push(cur@).drop_last() =~= done);
            done = done.push(cur@);
        }
    }
    assert(lines_of(s@) =~= done);
    proof {
        lemma_listing_excludes_root(done, root@);
        assert forall|i: int| 0 <= i < r@.len() implies #[trigger] r@[i].path@ != main_root@ by {
            assert(paths_of(r@)[i] == r@[i].path@);
            assert(listed_worktrees(done, root@)[i] != root@);
        }
    }
    r
}

/// The error that a failed removal reported with diagnostic `stderr` stands
/// for: local changes when the diagnostic says so, a plain failure otherwise.
pub fn classify_removal_failure(stderr: &str) -> (r: GwikError)
    ensures
        r is UncommittedChanges <==> occurs_in(DIRTY_WORKTREE_MARK@, stderr@),
        r is RemoveFailed ==> r->RemoveFailed_stderr@ == stderr@,
        r is UncommittedChanges || r is RemoveFailed,
{
    let s = chars_of(stderr);
    let mark = chars_of(DIRTY_WORKTREE_MARK);
    if contains_chars(&s, &mark) {
        GwikError::UncommittedChanges
    } else {
        GwikError::RemoveFailed { stderr: stderr.to_owned() }
    }
}

/// One invocation of the version-control tool, run from the repository root.
#[derive(Debug)]
pub enum GitCall {
    /// Whether the repository is bare.
    IsBareRepository,
    /// The shared metadata directory.
    CommonDir,
    /// The machine-readable worktree listing.
    ListWorktrees,
    /// Whether a local branch exists (success means yes).
    LocalBranchExists { branch: String },
    /// Whether a remote-tracking reference exists (success means yes).
    RemoteBranchExists { branch: String },
    /// A worktree at `path` on a new branch at the current head.
    AddNewBranch { path: String, branch: String },
    /// A worktree at `path` on an existing branch.
    AddExistingBranch { path: String, branch: String },
    /// A worktree at `path` on a new branch `local` tracking `remote`.
    AddTracking { path: String, local: String, remote: String },
    /// Removal of the worktree at `path`.
    RemoveWorktree { path: String },
}

/// The arguments of an invocation.
pub open spec fn call_args(c: GitCall) -> Seq<Seq<char>> {
    match c {
        GitCall::IsBareRepository => seq!["rev-parse"@, "--is-bare-repository"@],
        GitCall::CommonDir => seq!["rev-parse"@, "--git-common-dir"@],
        GitCall::ListWorktrees => seq!["worktree"@, "list"@, "--porcelain"@],
        GitCall::LocalBranchExists { branch } =>
            seq!["show-ref"@, "--verify"@, "--quiet"@, "refs/heads/"@ + branch@],
        GitCall::RemoteBranchExists { branch } =>
            seq!["show-ref"@, "--verify"@, "--quiet"@, "refs/remotes/"@ + branch@],
        GitCall::AddNewBranch { path, branch } => seq!["worktree"@, "add"@, "-b"@, branch@, path@],
        GitCall::AddExistingBranch { path, branch } => seq!["worktree"@, "add"@, path@, branch@],
        GitCall::AddTracking { path, local, remote } =>
            seq!["worktree"@, "add"@, "-b"@, local@, path@, remote@],
        GitCall::RemoveWorktree { path } => seq!["worktree"@, "remove"@, path@],
    }
}

/// `head` followed by `tail`.
fn prefixed(head: &str, tail: &str) -> (r: String)
    ensures
        r@ == head@ + tail@,
{
    let mut r = head.to_owned();
    r.append(tail);
    r
}

impl GitCall {
    /// The arguments to hand the tool.
    pub fn args(&self) -> (r: Vec<String>)
        ensures
            views_of(r@) == call_args(*self),
    {
        let r = match self {
            GitCall::IsBareRepository => vec!["rev-parse".to_owned(), "--is-bare-repository".to_owned()],
            GitCall::CommonDir => vec!["rev-parse".to_owned(), "--git-common-dir".to_owned()],
            GitCall::ListWorktrees => vec!["worktree".to_owned(), "list".to_owned(), "--porcelain".to_owned()],
            GitCall::LocalBranchExists { branch } => vec![
                "show-ref".to_owned(),
                "--verify".to_owned(),
                "--quiet".to_owned(),
                prefixed("refs/heads/", branch.as_str()),
            ],
            GitCall::RemoteBranchExists { branch } => vec![
                "show-ref".to_owned(),
                "--verify".to_owned(),
                "--quiet".to_owned(),
                prefixed("refs/remotes/", branch.as_str()),
            ],
            GitCall::AddNewBranch { path, branch } => vec![
                "worktree".to_owned(),
                "add".to_owned(),
                "-b".to_owned(),
                branch.clone(),
                path.clone(),
            ],
            GitCall::AddExistingBranch { path, branch } => vec![
                "worktree".to_owned(),
                "add".to_owned(),
                path.clone(),
                branch.clone(),
            ],
            GitCall::AddTracking { path, local, remote } => vec![
                "worktree".to_owned(),
                "add".to_owned(),
                "-b".to_owned(),
                local.clone(),
                path.clone(),
                remote.clone(),
            ],
            GitCall::RemoveWorktree { path } => vec!["worktree".to_owned(), "remove".to_owned(), path.clone()],
        };
        assert(views_of(r@) =~= call_args(*self));
        r
    }
}

} // verus!
