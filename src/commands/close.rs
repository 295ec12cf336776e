//! `close`: removing a worktree, as a flow of decisions between the steps
//! that the caller performs.
use vstd::prelude::*;
use vstd::string::StringExecFns;

use crate::commands::cd::{names_of, worktree_names};
use crate::commands::open::open_path;
use crate::commands::{accepts, cd_command, cd_line, is_affirmative, lowercased, trimmed};
use crate::config::Config;
use crate::error::GwikError;
use crate::git::{classify_removal_failure, dirname_of, first_containing, main_dir, paths_of, GitRepo, WorktreeInfo, DIRTY_WORKTREE_MARK};
use crate::path::{file_name, is_within, join, join_path, last_segment, path_within};
use crate::text::{occurs_in, opt_view, views_of};

verus! {

/// Where a close flow stands.
#[derive(Clone, Copy, Debug, PartialEq, Eq, Structural)]
pub enum ClosePhase {
    /// Waiting for the answer to "delete the worktree you are in?".
    AwaitAnswer,
    /// Waiting for the outcome of the removal.
    AwaitRemoval,
    /// Nothing more to do.
    Finished,
}

/// What the caller is to do next.
#[derive(Debug)]
pub enum CloseAction {
    /// Ask whether to remove the worktree the current directory is in.
    Confirm,
    /// Remove the worktree at `path`, keeping its branch.
    Remove { path: String },
    /// Report that the worktree `removed` is gone, then print `cd`.
    Done { removed: String, cd: String },
    /// The operator declined: stop without error.
    Aborted,
    /// Stop with `error`.
    Failed { error: GwikError },
    /// The flow has finished already.
    Stopped,
}

/// What the caller reports back.
#[derive(Debug)]
pub enum CloseEvent {
    /// The operator's answer line; an empty line at end of input declines.
    Answer { line: String },
    /// The removal succeeded.
    Removed,
    /// The removal failed with the tool's diagnostic.
    RemoveFailed { stderr: String },
}

/// A close in progress.
#[derive(Debug)]
pub struct CloseFlow {
    pub phase: ClosePhase,
    /// The worktree to remove.
    pub target: String,
    /// Where to change directory once it is removed.
    pub destination: String,
}

/// The worktree to close: the one named `name` under `worktree_dir` if it is
/// listed, or without a name the listed worktree that `cwd` lies in.
pub open spec fn close_target(
    name: Option<Seq<char>>,
    paths: Seq<Seq<char>>,
    worktree_dir: Seq<char>,
    cwd: Seq<char>,
) -> Option<Seq<char>> {
    match name {
        Some(n) => if paths.contains(join_path(worktree_dir, n)) {
            Some(join_path(worktree_dir, n))
        } else {
            None
        },
        None => first_containing(paths, cwd),
    }
}

/// The path of the worktree to close (see [`close_target`]); `NotFound` with
/// the names there are for an unknown name, `NotInsideWorktree` without one.
pub fn resolve_target(
    name: Option<&str>,
    worktrees: &Vec<WorktreeInfo>,
    worktree_dir: &str,
    cwd: &str,
) -> (r: Result<String, GwikError>)
    ensures
        ({
            let t = close_target(
                match name { Some(n) => Some(n@), None => None },
                paths_of(worktrees@),
                worktree_dir@,
                cwd@,
            );
            &&& t is Some <==> r is Ok
            &&& t is Some ==> r->Ok_0@ == t->0
            &&& (t is None && name is Some) ==> r->Err_0 is NotFound
                && r->Err_0->NotFound_name@ == name->0@
                && views_of(r->Err_0->NotFound_available@) == names_of(paths_of(worktrees@))
            &&& (t is None && name is None) ==> r->Err_0 is NotInsideWorktree
        }),
{
    let ghost paths = paths_of(worktrees@);
    match name {
        Some(n) => {
            let path = join(worktree_dir, n);
            let mut i: usize = 0;
            while i < worktrees.len()
                invariant
                    i <= worktrees@.len(),
                    paths == paths_of(worktrees@),
                    path@ == join_path(worktree_dir@, n@),
                    name == Some(n),
                    forall|j: int| 0 <= j < i ==> #[trigger] paths[j] != path@,
                decreases worktrees@.len() - i,
            {
                assert(paths[i as int] == worktrees@[i as int].path@);
                if worktrees[i].path == path {
                    assert(paths[i as int] == path@);

                    return Ok(path);
                }
                i = i + 1;
            }
            Err(GwikError::NotFound { name: n.to_owned(), available: worktree_names(worktrees) })
        },
        None => match GitRepo::current_worktree(cwd, worktrees) {
            Some(p) => Ok(p),
            None => Err(GwikError::NotInsideWorktree),
        },
    }
}

/// Closing by the directory name of a branch that `open` created a worktree
/// for targets exactly that worktree, whatever else is listed; the removal
/// is the one change a close makes, so the branch stays.
pub proof fn lemma_close_targets_opened(
    root: Seq<char>,
    worktree_dir: Seq<char>,
    branch: Seq<char>,
    paths: Seq<Seq<char>>,
    cwd: Seq<char>,
)
    requires
        paths.contains(open_path(root, worktree_dir, branch)),
    ensures
        close_target(Some(dirname_of(branch)), paths, join_path(root, worktree_dir), cwd)
            == Some(open_path(root, worktree_dir, branch)),
{
}

/// The confirmation that a worktree was removed.
pub fn removal_message(name: &str) -> (r: String)
    ensures
        r@ == "Removed worktree: "@ + name@,
{
    let mut r = "Removed worktree: ".to_owned();
    r.append(name);
    r
}

impl CloseFlow {
    /// Begins closing the worktree `name`, or without a name the one that
    /// `cwd` lies in, given the current listing. Removing the worktree the
    /// current directory is in asks first, unless `yes`.
    pub fn start(
        repo: &GitRepo,
        config: &Config,
        worktrees: &Vec<WorktreeInfo>,
        name: Option<&str>,
        cwd: &str,
        yes: bool,
    ) -> (r: (CloseFlow, CloseAction))
        ensures
            ({
                let t = close_target(
                    match name { Some(n) => Some(n@), None => None },
                    paths_of(worktrees@),
                    join_path(repo.root@, config.worktree_dir@),
                    cwd@,
                );
                let (flow, action) = r;
                &&& t is None ==> flow.phase is Finished && action is Failed
                    && (name is Some ==> action->Failed_error is NotFound
                        && action->Failed_error->NotFound_name@ == name->0@
                        && views_of(action->Failed_error->NotFound_available@) == names_of(paths_of(worktrees@)))
                    && (name is None ==> action->Failed_error is NotInsideWorktree)
                &&& t is Some ==> flow.target@ == t->0
                    && flow.destination@ == main_dir(repo.root@, repo.is_bare, opt_view(config.source_worktree))
                &&& (t is Some && path_within(cwd@, t->0) && !yes) ==> flow.phase is AwaitAnswer
                    && action is Confirm
                &&& (t is Some && !(path_within(cwd@, t->0) && !yes)) ==> flow.phase is AwaitRemoval
                    && action is Remove && action->Remove_path@ == t->0
            }),
    {
        let wd = repo.worktree_dir(config.worktree_dir.as_str());
        let destination = match &config.source_worktree {
            Some(s) => repo.working_dir(Some(s.as_str())),
            None => repo.working_dir(None),
        };
        match resolve_target(name, worktrees, wd.as_str(), cwd) {
            Err(error) => (
                CloseFlow { phase: ClosePhase::Finished, target: String::new(), destination },
                CloseAction::Failed { error },
            ),
            Ok(target) => {
                if is_within(cwd, target.as_str()) && !yes {
                    (CloseFlow { phase: ClosePhase::AwaitAnswer, target, destination }, CloseAction::Confirm)
                } else {
                    let path = target.clone();
                    (
                        CloseFlow { phase: ClosePhase::AwaitRemoval, target, destination },
                        CloseAction::Remove { path },
                    )
                }
            },
        }
    }

    /// Takes the caller's report and says what to do next. An accepting
    /// answer leads to the removal, any other to a clean abort; a successful
    /// removal ends with the change-directory instruction to the main working
    /// directory; a failed one ends the flow with its error, uncommitted
    /// changes told apart, and the worktree is left in place. A report the
    /// flow does not wait for changes nothing.
    pub fn step(&mut self, event: CloseEvent) -> (r: CloseAction)
        ensures
            final(self).target@ == old(self).target@,
            final(self).destination@ == old(self).destination@,
            old(self).phase is Finished ==> final(self).phase is Finished && r is Stopped,
            match (old(self).phase, event) {
                (ClosePhase::AwaitAnswer, CloseEvent::Answer { line }) =>
                    if accepts(lowercased(trimmed(line@))) {
                        final(self).phase is AwaitRemoval && r is Remove
                            && r->Remove_path@ == old(self).target@
                    } else {
                        final(self).phase is Finished && r is Aborted
                    },
                (ClosePhase::AwaitRemoval, CloseEvent::Removed) =>
                    final(self).phase is Finished && r is Done
                        && r->Done_removed@ == last_segment(old(self).target@)
                        && r->Done_cd@ == cd_line(old(self).destination@),
                (ClosePhase::AwaitRemoval, CloseEvent::RemoveFailed { stderr }) =>
                    final(self).phase is Finished && r is Failed
                        && (r->Failed_error is UncommittedChanges <==> occurs_in(DIRTY_WORKTREE_MARK@, stderr@))
                        && (r->Failed_error is UncommittedChanges || (r->Failed_error is RemoveFailed
                            && r->Failed_error->RemoveFailed_stderr@ == stderr@)),
                (ClosePhase::AwaitAnswer, _) => final(self).phase is AwaitAnswer && r is Confirm,
                (ClosePhase::AwaitRemoval, _) => final(self).phase is AwaitRemoval && r is Remove
                    && r->Remove_path@ == old(self).target@,
                (ClosePhase::Finished, _) => true,
            },
    {
        match (self.phase, event) {
            (ClosePhase::AwaitAnswer, CloseEvent::Answer { line }) => {
                if is_affirmative(line.as_str()) {
                    self.phase = ClosePhase::AwaitRemoval;
                    CloseAction::Remove { path: self.target.clone() }
                } else {
                    self.phase = ClosePhase::Finished;
                    CloseAction::Aborted
                }
            },
            (ClosePhase::AwaitRemoval, CloseEvent::Removed) => {
                self.phase = ClosePhase::Finished;
                CloseAction::Done {
                    removed: file_name(self.target.as_str()),
                    cd: cd_command(self.destination.as_str()),
                }
            },
            (ClosePhase::AwaitRemoval, CloseEvent::RemoveFailed { stderr }) => {
                self.phase = ClosePhase::Finished;
                CloseAction::Failed { error: classify_removal_failure(stderr.as_str()) }
            },
            (ClosePhase::AwaitAnswer, _) => CloseAction::Confirm,
            (ClosePhase::AwaitRemoval, _) => CloseAction::Remove { path: self.target.clone() },
            (ClosePhase::Finished, _) => CloseAction::Stopped,
        }
    }
}

} // verus!
