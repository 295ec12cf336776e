//! The multi-repository scan: repositories sit exactly three directory
//! levels below each root (host, owner, repository); hidden directories are
//! skipped; each repository found contributes its worktrees. The caller
//! performs the filesystem and tool queries that the scan asks for.
use vstd::prelude::*;

use crate::git::{parse_worktree_list, paths_of, worktrees_in_listing};
use crate::path::{join, join_path};
use crate::text::{chars_of, views_of};

verus! {

/// How many levels below a root a repository sits.
pub const REPO_DEPTH: usize = 3;

/// A directory waiting to be examined, `depth` levels below its root.
#[derive(Debug)]
pub struct ScanDir {
    pub path: String,
    pub depth: usize,
}

/// One entry of a directory, as the caller reads it.
#[derive(Debug)]
pub struct DirEntry {
    pub name: String,
    pub is_dir: bool,
}

/// Where a scan stands.
#[derive(Clone, Copy, Debug, PartialEq, Eq, Structural)]
pub enum ScanPhase {
    /// Waiting for the entries of the current directory.
    Reading,
    /// Waiting to learn whether the current directory holds repository metadata.
    Probing,
    /// Waiting for the worktree listing of the current directory.
    Listing,
    /// Nothing more to do.
    Finished,
}

/// What the caller is to do next.
#[derive(Debug)]
pub enum ScanAction {
    /// Report the entries of `path`, or that it cannot be read.
    ReadDir { path: String },
    /// Report whether `marker` exists.
    CheckRepo { marker: String },
    /// Report the machine-readable worktree listing of the repository at `repo`.
    ListWorktrees { repo: String },
    /// The scan is complete: these are the worktrees found, in order.
    Done { worktrees: Vec<String> },
    /// The report did not fit what the scan waits for; nothing changed.
    Unexpected,
}

/// What the caller reports back.
#[derive(Debug)]
pub enum ScanEvent {
    /// The directory's entries, in any order.
    Entries { entries: Vec<DirEntry> },
    /// The directory cannot be read (it may not exist).
    Unreadable,
    /// What was checked exists.
    Present,
    /// What was checked does not exist.
    Absent,
    /// The listing tool's output.
    Listing { output: String },
    /// The listing tool failed: the repository counts as having no worktrees.
    ListingFailed,
}

/// A scan in progress.
#[derive(Debug)]
pub struct Scan {
    pub phase: ScanPhase,
    /// The directory that the pending action is about.
    pub current: ScanDir,
    /// Directories still to examine; the last is next.
    pub pending: Vec<ScanDir>,
    /// Worktrees found so far.
    pub found: Vec<String>,
}

impl Scan {
    /// The depths stay within reach of repository depth: a directory that
    /// is read lies above it.
    pub open spec fn wf(&self) -> bool {
        &&& forall|j: int| 0 <= j < self.pending@.len() ==> #[trigger] self.pending@[j].depth <= REPO_DEPTH
        &&& self.current.depth <= REPO_DEPTH
        &&& self.phase is Reading ==> self.current.depth < REPO_DEPTH
    }
}

/// A directory to examine, as path and depth.
pub open spec fn frame_of(d: ScanDir) -> (Seq<char>, int) {
    (d.path@, d.depth as int)
}

/// The paths and depths of a sequence of directories.
pub open spec fn frames_of(v: Seq<ScanDir>) -> Seq<(Seq<char>, int)> {
    v.map_values(|d: ScanDir| frame_of(d))
}

/// Whether an entry name is hidden.
pub open spec fn is_hidden(name: Seq<char>) -> bool {
    name.len() > 0 && name[0] == '.'
}

/// The names of the entries that are directories and not hidden, in order.
pub open spec fn subdir_names(entries: Seq<DirEntry>) -> Seq<Seq<char>>
    decreases entries.len(),
{
    if entries.len() == 0 {
        Seq::empty()
    } else {
        let prev = subdir_names(entries.drop_last());
        let e = entries.last();
        if e.is_dir && !is_hidden(e.name@) {
            prev.push(e.name@)
        } else {
            prev
        }
    }
}

/// Lexicographic order of character sequences by code point.
pub open spec fn lex_le(a: Seq<char>, b: Seq<char>) -> bool
    decreases a.len(),
{
    if a.len() == 0 {
        true
    } else if b.len() == 0 {
        false
    } else if a[0] != b[0] {
        (a[0] as u32) < (b[0] as u32)
    } else {
        lex_le(a.drop_first(), b.drop_first())
    }
}

/// Whether `s` is in ascending lexicographic order.
pub open spec fn is_sorted(s: Seq<Seq<char>>) -> bool {
    forall|i: int, j: int| 0 <= i < j < s.len() ==> lex_le(#[trigger] s[i], #[trigger] s[j])
}

/// Whether `sorted` holds the items of `items` in ascending order.
pub open spec fn sorts(sorted: Seq<Seq<char>>, items: Seq<Seq<char>>) -> bool {
    &&& is_sorted(sorted)
    &&& sorted.to_multiset() == items.to_multiset()
}

/// The directories below `parent` named `names`, in reverse order, so that
/// the first name is on top of the stack.
pub open spec fn child_frames(parent: (Seq<char>, int), names: Seq<Seq<char>>) -> Seq<(Seq<char>, int)> {
    Seq::new(names.len(), |k: int| (join_path(parent.0, names[names.len() - 1 - k]), parent.1 + 1))
}

/// What the scan does with `pending` left to examine and `found` found:
/// examine the directory on top, or finish.
pub open spec fn advanced(pending: Seq<(Seq<char>, int)>, found: Seq<Seq<char>>, s: Scan, a: ScanAction) -> bool {
    &&& views_of(s.found@) == found
    &&& if pending.len() == 0 {
        &&& s.phase is Finished
        &&& a is Done
        &&& views_of(a->Done_worktrees@) == found
    } else {
        let top = pending.last();
        &&& frames_of(s.pending@) == pending.drop_last()
        &&& frame_of(s.current) == top
        &&& if top.1 == REPO_DEPTH as int {
            &&& s.phase is Probing
            &&& a is CheckRepo
            &&& a->CheckRepo_marker@ == join_path(top.0, ".git"@)
        } else {
            &&& s.phase is Reading
            &&& a is ReadDir
            &&& a->ReadDir_path@ == top.0
        }
    }
}

/// Relies on `slice::sort` on strings: afterwards the same strings are in
/// ascending order, and strings order lexicographically by their bytes,
/// which for UTF-8 is the order of their code points.
#[verifier::external_body]
fn sort_strings(v: &mut Vec<String>)
    ensures
        sorts(views_of(final(v)@), views_of(old(v)@)),
{
    v.sort()
}

/// The names of the entries that are directories and not hidden, in order.
pub fn subdirectories(entries: &Vec<DirEntry>) -> (r: Vec<String>)
    ensures
        views_of(r@) == subdir_names(entries@),
{
    let mut r: Vec<String> = Vec::new();
    let mut i: usize = 0;
    while i < entries.len()
        invariant
            i <= entries@.len(),
            views_of(r@) == subdir_names(entries@.take(i as int)),
        decreases entries@.len() - i,
    {
        assert(entries@.take(i + 1).drop_last() =~= entries@.take(i as int));
        let e = &entries[i];
        let v = chars_of(e.name.as_str());
        if e.is_dir && !(v.len() > 0 && v[0] == '.') {
            let ghost before = r@;
            r.push(e.name.clone());
            assert(views_of(r@) =~= views_of(before).push(e.name@));
        }
        i = i + 1;
    }
    assert(entries@.take(i as int) =~= entries@);
    r
}

impl Scan {
    /// Begins a scan of `roots`, in order.
    pub fn start(roots: &Vec<String>) -> (r: (Scan, ScanAction))
        ensures
            r.0.wf(),
            advanced(
                Seq::new(roots@.len(), |k: int| (roots@[roots@.len() - 1 - k]@, 0int)),
                Seq::empty(),
                r.0,
                r.1,
            ),
    {
        let mut pending: Vec<ScanDir> = Vec::new();
        let mut i: usize = roots.len();
        while i > 0
            invariant
                i <= roots@.len(),
                frames_of(pending@) == Seq::new((roots@.len() - i) as nat, |k: int| (roots@[roots@.len() - 1 - k]@, 0int)),
                forall|j: int| 0 <= j < pending@.len() ==> #[trigger] pending@[j].depth == 0,
            decreases i,
        {
            i = i - 1;
            let ghost before = pending@;
            let root: String = roots[i].clone();
            assert(root@ == roots@[i as int]@);
            pending.push(ScanDir { path: root, depth: 0 });
            assert(frames_of(pending@) =~= frames_of(before).push((roots@[i as int]@, 0int)));
            assert(frames_of(pending@) =~= Seq::new((roots@.len() - i) as nat, |k: int| (roots@[roots@.len() - 1 - k]@, 0int)));
        }
        let mut s = Scan {
            phase: ScanPhase::Finished,
            current: ScanDir { path: String::new(), depth: 0 },
            pending,
            found: Vec::new(),
        };
        assert(views_of(s.found@) =~= Seq::<Seq<char>>::empty());
        let a = s.advance();
        (s, a)
    }

    /// Examines the directory on top of the stack, or finishes.
    fn advance(&mut self) -> (r: ScanAction)
        requires
            forall|j: int| 0 <= j < old(self).pending@.len() ==> #[trigger] old(self).pending@[j].depth <= REPO_DEPTH,
            old(self).current.depth <= REPO_DEPTH,
        ensures
            final(self).wf(),
            advanced(frames_of(old(self).pending@), views_of(old(self).found@), *final(self), r),
    {
        let ghost old_found = views_of(self.found@);
        match self.pending.pop() {
            None => {
                self.phase = ScanPhase::Finished;
                let worktrees = self.found.clone();
                assert(worktrees@ == self.found@);
                ScanAction::Done { worktrees }
            },
            Some(d) => {
                proof {
                    assert(frame_of(d) == frames_of(old(self).pending@).last());
                    assert(old(self).pending@[old(self).pending@.len() - 1] == d);
                    assert(frames_of(self.pending@) =~= frames_of(old(self).pending@).drop_last());
                }
                let action = if d.depth == REPO_DEPTH {
                    self.phase = ScanPhase::Probing;
                    ScanAction::CheckRepo { marker: join(d.path.as_str(), ".git") }
                } else {
                    self.phase = ScanPhase::Reading;
                    ScanAction::ReadDir { path: d.path.clone() }
                };
                self.current = d;
                action
            },
        }
    }

    /// Takes the caller's report and says what to do next. A directory above
    /// repository depth has its non-hidden subdirectories examined next, in
    /// ascending order of name; an unreadable one is skipped. A directory at
    /// repository depth that holds metadata is listed, and its worktrees
    /// other than its primary checkout are added in listing order; a failed
    /// listing adds none. A report the scan does not wait for changes nothing.
    pub fn step(&mut self, event: ScanEvent) -> (r: ScanAction)
        requires
            old(self).wf(),
        ensures
            final(self).wf(),
            ({
                let o = *old(self);
                let f = *final(self);
                let pending = frames_of(o.pending@);
                let found = views_of(o.found@);
                match (o.phase, event) {
                    (ScanPhase::Reading, ScanEvent::Entries { entries }) => exists|names: Seq<Seq<char>>|
                        sorts(names, subdir_names(entries@))
                        && advanced(pending + child_frames(frame_of(o.current), names), found, f, r),
                    (ScanPhase::Reading, ScanEvent::Unreadable) => advanced(pending, found, f, r),
                    (ScanPhase::Probing, ScanEvent::Present) => f.phase is Listing
                        && frame_of(f.current) == frame_of(o.current)
                        && frames_of(f.pending@) == pending && views_of(f.found@) == found
                        && r is ListWorktrees && r->ListWorktrees_repo@ == o.current.path@,
                    (ScanPhase::Probing, ScanEvent::Absent) => advanced(pending, found, f, r),
                    (ScanPhase::Listing, ScanEvent::Listing { output }) =>
                        advanced(pending, found + worktrees_in_listing(output@, o.current.path@), f, r),
                    (ScanPhase::Listing, ScanEvent::ListingFailed) => advanced(pending, found, f, r),
                    _ => f.phase == o.phase && frames_of(f.pending@) == pending
                        && views_of(f.found@) == found && r is Unexpected,
                }
            }),
    {
        match (self.phase, event) {
            (ScanPhase::Reading, ScanEvent::Entries { entries }) => {
                let mut names = subdirectories(&entries);
                sort_strings(&mut names);
                let ghost base = frames_of(self.pending@);
                let ghost parent = frame_of(self.current);
                let ghost nv = views_of(names@);
                let mut k: usize = names.len();
                while k > 0
                    invariant
                        k <= names@.len(),
                        nv == views_of(names@),
                        parent == frame_of(self.current),
                        self.current.depth < REPO_DEPTH,
                        frames_of(self.pending@) == base + child_frames(parent, nv.skip(k as int)),
                        forall|j: int| 0 <= j < self.pending@.len() ==> #[trigger] self.pending@[j].depth <= REPO_DEPTH,
                        self.found@ == old(self).found@,
                        base == frames_of(old(self).pending@),
                        parent == frame_of(old(self).current),
                    decreases k,
                {
                    k = k - 1;
                    let ghost before = self.pending@;
                    let child = ScanDir { path: join(self.current.path.as_str(), names[k].as_str()), depth: self.current.depth + 1 };
                    assert(frame_of(child) == (join_path(parent.0, nv[k as int]), parent.1 + 1));
                    self.pending.push(child);
                    assert(frames_of(self.pending@) =~= frames_of(before).push(frame_of(child)));
                    assert(child_frames(parent, nv.skip(k as int)) =~= child_frames(parent, nv.skip(k + 1)).push(frame_of(child)));
                    assert(frames_of(self.pending@) =~= base + child_frames(parent, nv.skip(k as int)));
                }
                assert(nv.skip(0) =~= nv);
                assert(sorts(nv, subdir_names(entries@)));
                let r = self.advance();
                assert(advanced(frames_of(old(self).pending@) + child_frames(frame_of(old(self).current), nv),
                    views_of(old(self).found@), *self, r));
                r
            },
            (ScanPhase::Reading, ScanEvent::Unreadable) => self.advance(),
            (ScanPhase::Probing, ScanEvent::Present) => {
                self.phase = ScanPhase::Listing;
                ScanAction::ListWorktrees { repo: self.current.path.clone() }
            },
            (ScanPhase::Probing, ScanEvent::Absent) => self.advance(),
            (ScanPhase::Listing, ScanEvent::Listing { output }) => {
                let listed = parse_worktree_list(output.as_str(), self.current.path.as_str());
                let mut i: usize = 0;
                let ghost base = views_of(self.found@);
                while i < listed.len()
                    invariant
                        i <= listed@.len(),
                        views_of(self.found@) == base + paths_of(listed@).take(i as int),
                        self.wf(),
                        self.phase is Listing,
                        self.pending@ == old(self).pending@,
                        self.current.path@ == old(self).current.path@,
                        base == views_of(old(self).found@),
                        paths_of(listed@) == worktrees_in_listing(output@, old(self).current.path@),
                    decreases listed@.len() - i,
                {
                    let ghost before = self.found@;
                    let p: String = listed[i].path.clone();
                    assert(p@ == paths_of(listed@)[i as int]);
                    self.found.push(p);
                    assert(views_of(self.found@) =~= views_of(before).push(p@));
                    i = i + 1;
                    assert(views_of(self.found@) =~= base + paths_of(listed@).take(i as int));
                }
                assert(paths_of(listed@).take(i as int) =~= paths_of(listed@));
                self.advance()
            },
            (ScanPhase::Listing, ScanEvent::ListingFailed) => self.advance(),
            _ => ScanAction::Unexpected,
        }
    }
}

/// The worktrees found under `roots`: the start of a scan, whose actions the
/// caller performs and reports through [`Scan::step`].
pub fn scan_all_worktrees(roots: &Vec<String>) -> (r: (Scan, ScanAction))
    ensures
        r.0.wf(),
        advanced(
            Seq::new(roots@.len(), |k: int| (roots@[roots@.len() - 1 - k]@, 0int)),
            Seq::empty(),
            r.0,
            r.1,
        ),
{
    Scan::start(roots)
}

} // verus!
