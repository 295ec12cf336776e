//! `open`: creating a worktree, as a flow of decisions between the steps
//! that the caller performs.
use vstd::prelude::*;

use crate::commands::{accepts, cd_command, cd_line, is_affirmative, lowercased, trimmed};
use crate::config::{in_metadata_dir, Config};
use crate::error::GwikError;
use crate::git::{dirname_of, GitRepo};
use crate::path::{is_within, join, join_path, path_within};
use crate::text::{chars_of, replace_all, replaced, string_from, views_of};

verus! {

/// Where an open flow stands.
#[derive(Clone, Copy, Debug, PartialEq, Eq, Structural)]
pub enum OpenPhase {
    /// Waiting to learn whether the target path exists.
    CheckTarget,
    /// Waiting to learn whether the worktree directory exists.
    CheckDir,
    /// Waiting for the worktree directory to be created.
    CreateDir,
    /// Waiting to learn whether the branch names a remote-tracking reference.
    CheckRemote,
    /// Waiting to learn whether a local branch of that name exists.
    CheckLocal,
    /// Waiting for the answer to "use the existing branch?".
    AwaitAnswer,
    /// Waiting for the worktree to be added.
    AwaitAdd,
    /// Waiting for the post-creation command at `next` to finish.
    RunCommands,
    /// Nothing more to do.
    Finished,
}

/// What the caller is to do next.
#[derive(Debug)]
pub enum OpenAction {
    /// Report whether `path` exists.
    CheckPath { path: String },
    /// Create `dir` with its parents; when `exclude`, write into it an
    /// exclusion file holding the single line `*`.
    CreateDir { dir: String, exclude: bool },
    /// Report whether the remote-tracking reference `branch` exists.
    CheckRemoteBranch { branch: String },
    /// Report whether the local branch `branch` exists.
    CheckLocalBranch { branch: String },
    /// Ask whether to reuse the existing local branch `branch`.
    Confirm { branch: String },
    /// Add a worktree at `path` with a new branch `local` tracking `remote`.
    AddTracking { path: String, local: String, remote: String },
    /// Add a worktree at `path` on the existing branch `branch`.
    AddExisting { path: String, branch: String },
    /// Add a worktree at `path` with a new branch `branch` at the current head.
    AddNew { path: String, branch: String },
    /// Run `command` in a subshell from the repository root.
    Run { command: String },
    /// Print `cd`: the worktree is ready.
    Done { cd: String },
    /// The operator declined: stop without error.
    Aborted,
    /// Stop with `error`.
    Failed { error: GwikError },
    /// The report did not fit what the flow waits for; nothing changed.
    Unexpected,
}

/// What the caller reports back.
#[derive(Debug)]
pub enum OpenEvent {
    /// What was checked exists.
    Present,
    /// What was checked does not exist.
    Absent,
    /// The operator's answer line; an empty line at end of input declines.
    Answer { line: String },
    /// The operation succeeded.
    Succeeded,
    /// The operation failed, with its diagnostic.
    Failed { message: String },
}

/// An open in progress.
#[derive(Debug)]
pub struct OpenFlow {
    pub phase: OpenPhase,
    /// The requested branch.
    pub branch: String,
    /// Whether confirmation prompts are skipped.
    pub yes: bool,
    /// The directory-safe name of the branch.
    pub dirname: String,
    /// The directory that holds the worktrees.
    pub dir: String,
    /// The new worktree's path.
    pub path: String,
    /// Whether a freshly created worktree directory gets an exclusion file.
    pub exclude: bool,
    /// The repository root.
    pub root: String,
    /// The post-creation commands, placeholders not yet expanded.
    pub cmds: Vec<String>,
    /// The position of the command that runs in `RunCommands`.
    pub next: usize,
}

impl OpenFlow {
    /// While commands run, `next` is the position of one.
    pub open spec fn wf(&self) -> bool {
        self.phase is RunCommands ==> self.next < self.cmds@.len()
    }
}

/// The part of a remote-tracking reference after its remote: what follows
/// the first `/`.
pub open spec fn after_first_slash(b: Seq<char>) -> Seq<char>
    decreases b.len(),
{
    if b.len() == 0 {
        b
    } else if b[0] == '/' {
        b.drop_first()
    } else {
        after_first_slash(b.drop_first())
    }
}

/// Placeholder for the source repository path in a post-creation command.
pub open spec fn src_token() -> Seq<char> {
    seq!['$', 'S', 'R', 'C']
}

/// Placeholder for the new worktree path in a post-creation command.
pub open spec fn dst_token() -> Seq<char> {
    seq!['$', 'D', 'S', 'T']
}

/// A post-creation command as run: `$SRC` replaced by `src`, then `$DST` by `dst`.
pub open spec fn expanded_command(cmd: Seq<char>, src: Seq<char>, dst: Seq<char>) -> Seq<char> {
    replaced(replaced(cmd, src_token(), src), dst_token(), dst)
}

/// The path at which `open` creates the worktree of `branch`.
pub open spec fn open_path(root: Seq<char>, worktree_dir: Seq<char>, branch: Seq<char>) -> Seq<char> {
    join_path(join_path(root, worktree_dir), dirname_of(branch))
}

/// The phase that follows once the worktree directory is there: a branch
/// that may name a remote reference is checked as one first.
pub open spec fn phase_after_dir(branch: Seq<char>) -> OpenPhase {
    if branch.contains('/') {
        OpenPhase::CheckRemote
    } else {
        OpenPhase::CheckLocal
    }
}

/// Whether the flow's fixed fields are those of `old`.
pub open spec fn same_request(new: OpenFlow, old: OpenFlow) -> bool {
    &&& new.branch@ == old.branch@
    &&& new.yes == old.yes
    &&& new.dirname@ == old.dirname@
    &&& new.dir@ == old.dir@
    &&& new.path@ == old.path@
    &&& new.exclude == old.exclude
    &&& new.root@ == old.root@
    &&& views_of(new.cmds@) == views_of(old.cmds@)
}

/// What the flow does once the command at `k` is next: run it, or finish
/// with the change-directory instruction when none is left.
pub open spec fn commands_from(flow: OpenFlow, k: int, phase: OpenPhase, next: int, action: OpenAction) -> bool {
    if k < flow.cmds@.len() {
        &&& phase is RunCommands
        &&& next == k
        &&& action is Run
        &&& action->Run_command@ == expanded_command(flow.cmds@[k]@, flow.root@, flow.path@)
    } else {
        &&& phase is Finished
        &&& action is Done
        &&& action->Done_cd@ == cd_line(flow.path@)
    }
}

/// What the flow does once the worktree directory is there.
pub open spec fn after_dir(flow: OpenFlow, phase: OpenPhase, action: OpenAction) -> bool {
    &&& phase == phase_after_dir(flow.branch@)
    &&& phase is CheckRemote ==> action is CheckRemoteBranch && action->CheckRemoteBranch_branch@ == flow.branch@
    &&& phase is CheckLocal ==> action is CheckLocalBranch && action->CheckLocalBranch_branch@ == flow.branch@
}

/// `$SRC` and `$DST` in `cmd` replaced by `src` and `dst`, in that order.
pub fn expand_command(cmd: &str, src: &str, dst: &str) -> (r: String)
    ensures
        r@ == expanded_command(cmd@, src@, dst@),
{
    let src_tok: Vec<char> = vec!['$', 'S', 'R', 'C'];
    let dst_tok: Vec<char> = vec!['$', 'D', 'S', 'T'];
    let first = replace_all(cmd, &src_tok, src);
    replace_all(first.as_str(), &dst_tok, dst)
}

/// The local branch name for a remote-tracking reference: what follows its
/// first `/`.
pub fn local_branch_of(remote: &str) -> (r: String)
    ensures
        r@ == after_first_slash(remote@),
{
    let v = chars_of(remote);
    let mut i: usize = 0;
    assert(v@.skip(0) =~= v@);
    while i < v.len() && v[i] != '/'
        invariant
            i <= v@.len(),
            v@ == remote@,
            after_first_slash(remote@) == after_first_slash(v@.skip(i as int)),
        decreases v@.len() - i,
    {
        assert(v@.skip(i as int).drop_first() =~= v@.skip(i + 1));
        i = i + 1;
    }
    if i < v.len() {
        assert(v@.skip(i as int).drop_first() =~= v@.skip(i + 1));
        string_from(&v, i + 1)
    } else {
        string_from(&v, i)
    }
}

/// Whether `s` holds a `/`.
fn has_slash(s: &str) -> (r: bool)
    ensures
        r == s@.contains('/'),
{
    let v = chars_of(s);
    let mut i: usize = 0;
    while i < v.len()
        invariant
            i <= v@.len(),
            v@ == s@,
            forall|j: int| 0 <= j < i ==> v@[j] != '/',
        decreases v@.len() - i,
    {
        if v[i] == '/' {
            return true;
        }
        i = i + 1;
    }
    false
}

impl OpenFlow {
    /// Begins opening a worktree for `branch`: its path is the branch's
    /// directory-safe name under the configured worktree directory, and the
    /// first thing to learn is whether that path exists.
    pub fn start(repo: &GitRepo, config: &Config, branch: &str, yes: bool) -> (r: (OpenFlow, OpenAction))
        ensures
            r.0.phase is CheckTarget,
            r.0.branch@ == branch@,
            r.0.yes == yes,
            r.0.dirname@ == dirname_of(branch@),
            r.0.dir@ == join_path(repo.root@, config.worktree_dir@),
            r.0.path@ == open_path(repo.root@, config.worktree_dir@, branch@),
            r.0.exclude == !(in_metadata_dir(config.worktree_dir@) || path_within(r.0.dir@, repo.git_dir@)),
            r.0.wf(),
            r.0.root@ == repo.root@,
            views_of(r.0.cmds@) == views_of(config.cmds@),
            r.1 is CheckPath && r.1->CheckPath_path@ == r.0.path@,
    {
        let dirname = GitRepo::branch_to_dirname(branch);
        let dir = repo.worktree_dir(config.worktree_dir.as_str());
        let path = join(dir.as_str(), dirname.as_str());
        let mut cmds: Vec<String> = Vec::new();
        let mut i: usize = 0;
        while i < config.cmds.len()
            invariant
                i <= config.cmds@.len(),
                views_of(cmds@) == views_of(config.cmds@).take(i as int),
            decreases config.cmds@.len() - i,
        {
            let ghost before = cmds@;
            let c: String = config.cmds[i].clone();
            assert(c@ == config.cmds@[i as int]@);
            cmds.push(c);
            assert(views_of(cmds@) =~= views_of(before).push(c@));
            i = i + 1;
            assert(views_of(cmds@) =~= views_of(config.cmds@).take(i as int));
        }
        assert(views_of(config.cmds@).take(i as int) =~= views_of(config.cmds@));
        let exclude = !(config.worktree_dir_in_git() || is_within(dir.as_str(), repo.git_dir.as_str()));
        let action = OpenAction::CheckPath { path: path.clone() };
        let flow = OpenFlow {
            phase: OpenPhase::CheckTarget,
            branch: branch.to_owned(),
            yes,
            dirname,
            dir,
            path,
            exclude,
            root: repo.root.clone(),
            cmds,
            next: 0,
        };
        (flow, action)
    }

    /// The step taken once the worktree directory is there.
    fn after_dir(&mut self) -> (r: OpenAction)
        ensures
            final(self).wf(),
            same_request(*final(self), *old(self)),
            final(self).next == old(self).next,
            after_dir(*old(self), final(self).phase, r),
    {
        if has_slash(self.branch.as_str()) {
            self.phase = OpenPhase::CheckRemote;
            OpenAction::CheckRemoteBranch { branch: self.branch.clone() }
        } else {
            self.phase = OpenPhase::CheckLocal;
            OpenAction::CheckLocalBranch { branch: self.branch.clone() }
        }
    }

    /// The step taken once the command at `k` is next.
    fn commands_from(&mut self, k: usize) -> (r: OpenAction)
        ensures
            final(self).wf(),
            same_request(*final(self), *old(self)),
            commands_from(*old(self), k as int, final(self).phase, final(self).next as int, r),
    {
        if k < self.cmds.len() {
            self.phase = OpenPhase::RunCommands;
            self.next = k;
            OpenAction::Run {
                command: expand_command(self.cmds[k].as_str(), self.root.as_str(), self.path.as_str()),
            }
        } else {
            self.phase = OpenPhase::Finished;
            OpenAction::Done { cd: cd_command(self.path.as_str()) }
        }
    }

    /// Takes the caller's report and says what to do next. An existing
    /// target fails; a missing worktree directory is created first; a
    /// remote-tracking reference is checked out on a new tracking branch; an
    /// existing local branch is reused, after asking unless `yes`; any other
    /// name gets a new branch. The post-creation commands then run in order,
    /// and the first that fails ends the flow, leaving the worktree and
    /// what earlier commands did in place. A report the flow does not wait
    /// for changes nothing.
    pub fn step(&mut self, event: OpenEvent) -> (r: OpenAction)
        requires
            old(self).wf(),
        ensures
            final(self).wf(),
            same_request(*final(self), *old(self)),
            ({
                let o = *old(self);
                let f = *final(self);
                match (o.phase, event) {
                    (OpenPhase::CheckTarget, OpenEvent::Present) => f.phase is Finished && r is Failed
                        && r->Failed_error is AlreadyExists
                        && r->Failed_error->AlreadyExists_name@ == o.dirname@,
                    (OpenPhase::CheckTarget, OpenEvent::Absent) => f.phase is CheckDir && r is CheckPath
                        && r->CheckPath_path@ == o.dir@,
                    (OpenPhase::CheckDir, OpenEvent::Present) => after_dir(o, f.phase, r),
                    (OpenPhase::CheckDir, OpenEvent::Absent) => f.phase is CreateDir && r is CreateDir
                        && r->CreateDir_dir@ == o.dir@ && r->CreateDir_exclude == o.exclude,
                    (OpenPhase::CreateDir, OpenEvent::Succeeded) => after_dir(o, f.phase, r),
                    (OpenPhase::CreateDir, OpenEvent::Failed { message }) => f.phase is Finished
                        && r is Failed && r->Failed_error is Io
                        && r->Failed_error->Io_message@ == message@,
                    (OpenPhase::CheckRemote, OpenEvent::Present) => f.phase is AwaitAdd && r is AddTracking
                        && r->AddTracking_path@ == o.path@
                        && r->AddTracking_local@ == after_first_slash(o.branch@)
                        && r->AddTracking_remote@ == o.branch@,
                    (OpenPhase::CheckRemote, OpenEvent::Absent) => f.phase is CheckLocal
                        && r is CheckLocalBranch && r->CheckLocalBranch_branch@ == o.branch@,
                    (OpenPhase::CheckLocal, OpenEvent::Present) => if o.yes {
                        f.phase is AwaitAdd && r is AddExisting && r->AddExisting_path@ == o.path@
                            && r->AddExisting_branch@ == o.branch@
                    } else {
                        f.phase is AwaitAnswer && r is Confirm && r->Confirm_branch@ == o.branch@
                    },
                    (OpenPhase::CheckLocal, OpenEvent::Absent) => f.phase is AwaitAdd && r is AddNew
                        && r->AddNew_path@ == o.path@ && r->AddNew_branch@ == o.branch@,
                    (OpenPhase::AwaitAnswer, OpenEvent::Answer { line }) =>
                        if accepts(lowercased(trimmed(line@))) {
                            f.phase is AwaitAdd && r is AddExisting && r->AddExisting_path@ == o.path@
                                && r->AddExisting_branch@ == o.branch@
                        } else {
                            f.phase is Finished && r is Aborted
                        },
                    (OpenPhase::AwaitAdd, OpenEvent::Succeeded) => commands_from(o, 0, f.phase, f.next as int, r),
                    (OpenPhase::AwaitAdd, OpenEvent::Failed { message }) => f.phase is Finished
                        && r is Failed && r->Failed_error is AddFailed
                        && r->Failed_error->AddFailed_stderr@ == message@,
                    (OpenPhase::RunCommands, OpenEvent::Succeeded) =>
                        commands_from(o, o.next + 1, f.phase, f.next as int, r),
                    (OpenPhase::RunCommands, OpenEvent::Failed { message: _ }) => f.phase is Finished
                        && r is Failed && r->Failed_error is CommandFailed
                        && r->Failed_error->CommandFailed_command@
                            == expanded_command(o.cmds@[o.next as int]@, o.root@, o.path@),
                    _ => f.phase == o.phase && f.next == o.next && r is Unexpected,
                }
            }),
    {
        match (self.phase, event) {
            (OpenPhase::CheckTarget, OpenEvent::Present) => {
                self.phase = OpenPhase::Finished;
                OpenAction::Failed { error: GwikError::AlreadyExists { name: self.dirname.clone() } }
            },
            (OpenPhase::CheckTarget, OpenEvent::Absent) => {
                self.phase = OpenPhase::CheckDir;
                OpenAction::CheckPath { path: self.dir.clone() }
            },
            (OpenPhase::CheckDir, OpenEvent::Present) => self.after_dir(),
            (OpenPhase::CheckDir, OpenEvent::Absent) => {
                self.phase = OpenPhase::CreateDir;
                OpenAction::CreateDir { dir: self.dir.clone(), exclude: self.exclude }
            },
            (OpenPhase::CreateDir, OpenEvent::Succeeded) => self.after_dir(),
            (OpenPhase::CreateDir, OpenEvent::Failed { message }) => {
                self.phase = OpenPhase::Finished;
                OpenAction::Failed { error: GwikError::Io { message } }
            },
            (OpenPhase::CheckRemote, OpenEvent::Present) => {
                self.phase = OpenPhase::AwaitAdd;
                OpenAction::AddTracking {
                    path: self.path.clone(),
                    local: local_branch_of(self.branch.as_str()),
                    remote: self.branch.clone(),
                }
            },
            (OpenPhase::CheckRemote, OpenEvent::Absent) => {
                self.phase = OpenPhase::CheckLocal;
                OpenAction::CheckLocalBranch { branch: self.branch.clone() }
            },
            (OpenPhase::CheckLocal, OpenEvent::Present) => {
                if self.yes {
                    self.phase = OpenPhase::AwaitAdd;
                    OpenAction::AddExisting { path: self.path.clone(), branch: self.branch.clone() }
                } else {
                    self.phase = OpenPhase::AwaitAnswer;
                    OpenAction::Confirm { branch: self.branch.clone() }
                }
            },
            (OpenPhase::CheckLocal, OpenEvent::Absent) => {
                self.phase = OpenPhase::AwaitAdd;
                OpenAction::AddNew { path: self.path.clone(), branch: self.branch.clone() }
            },
            (OpenPhase::AwaitAnswer, OpenEvent::Answer { line }) => {
                if is_affirmative(line.as_str()) {
                    self.phase = OpenPhase::AwaitAdd;
                    OpenAction::AddExisting { path: self.path.clone(), branch: self.branch.clone() }
                } else {
                    self.phase = OpenPhase::Finished;
                    OpenAction::Aborted
                }
            },
            (OpenPhase::AwaitAdd, OpenEvent::Succeeded) => self.commands_from(0),
            (OpenPhase::AwaitAdd, OpenEvent::Failed { message }) => {
                self.phase = OpenPhase::Finished;
                OpenAction::Failed { error: GwikError::AddFailed { stderr: message } }
            },
            (OpenPhase::RunCommands, OpenEvent::Succeeded) => {
                assert(self.next < self.cmds.len());
                let k = self.next + 1;
                self.commands_from(k)
            },
            (OpenPhase::RunCommands, OpenEvent::Failed { message: _ }) => {
                let command = expand_command(
                    self.cmds[self.next].as_str(),
                    self.root.as_str(),
                    self.path.as_str(),
                );
                self.phase = OpenPhase::Finished;
                OpenAction::Failed { error: GwikError::CommandFailed { command } }
            },
            _ => OpenAction::Unexpected,
        }
    }
}

} // verus!
