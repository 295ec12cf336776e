//! `cd`: the change-directory instruction for a worktree named exactly.
use vstd::prelude::*;
use vstd::string::StringExecFns;

use crate::commands::{cd_command, cd_line};
use crate::error::GwikError;
use crate::git::{paths_of, WorktreeInfo};
use crate::path::{file_name, last_segment};
use crate::text::views_of;

verus! {

/// The final segments of a sequence of paths.
pub open spec fn names_of(paths: Seq<Seq<char>>) -> Seq<Seq<char>> {
    paths.map_values(|p: Seq<char>| last_segment(p))
}

/// Whether the path at `i` is the first whose final segment is `name`.
pub open spec fn first_named(paths: Seq<Seq<char>>, name: Seq<char>, i: int) -> bool {
    &&& 0 <= i < paths.len()
    &&& last_segment(paths[i]) == name
    &&& forall|j: int| 0 <= j < i ==> last_segment(#[trigger] paths[j]) != name
}

/// The final segments of the worktrees' paths.
pub fn worktree_names(worktrees: &Vec<WorktreeInfo>) -> (r: Vec<String>)
    ensures
        views_of(r@) == names_of(paths_of(worktrees@)),
{
    let mut r: Vec<String> = Vec::new();
    let mut i: usize = 0;
    while i < worktrees.len()
        invariant
            i <= worktrees@.len(),
            views_of(r@) == names_of(paths_of(worktrees@)).take(i as int),
        decreases worktrees@.len() - i,
    {
        let n = file_name(worktrees[i].path.as_str());
        let ghost before = r@;
        r.push(n);
        assert(paths_of(worktrees@)[i as int] == worktrees@[i as int].path@);
        assert(views_of(r@) =~= views_of(before).push(n@));
        i = i + 1;
        assert(views_of(r@) =~= names_of(paths_of(worktrees@)).take(i as int));
    }
    assert(names_of(paths_of(worktrees@)).take(i as int) =~= names_of(paths_of(worktrees@)));
    r
}

/// The lines that follow a `NotFound` report: a header and one indented
/// line per known name; nothing when there are none.
pub open spec fn available_text(names: Seq<Seq<char>>) -> Seq<char>
    decreases names.len(),
{
    if names.len() == 0 {
        Seq::empty()
    } else if names.len() == 1 {
        "\nAvailable worktrees:\n"@ + "  "@ + names[0] + seq!['\n']
    } else {
        available_text(names.drop_last()) + "  "@ + names.last() + seq!['\n']
    }
}

/// The list of known worktree names that goes with a `NotFound` report.
pub fn available_report(names: &Vec<String>) -> (r: String)
    ensures
        r@ == available_text(views_of(names@)),
{
    let mut r = String::new();
    let mut i: usize = 0;
    while i < names.len()
        invariant
            i <= names@.len(),
            r@ == available_text(views_of(names@).take(i as int)),
        decreases names@.len() - i,
    {
        let ghost t = views_of(names@).take(i + 1);
        assert(t.drop_last() =~= views_of(names@).take(i as int));
        if i == 0 {
            r.append("\nAvailable worktrees:\n");
        }
        r.append("  ");
        r.append(names[i].as_str());
        crate::text::push_char(&mut r, '\n');
        proof {
            if i == 0 {
                assert(r@ =~= "\nAvailable worktrees:\n"@ + "  "@ + t[0] + seq!['\n']);
            }
        }
        i = i + 1;
    }
    assert(views_of(names@).take(i as int) =~= views_of(names@));
    r
}

/// The change-directory instruction for the first worktree whose directory
/// name is exactly `name`; `NotFound` with the names there are otherwise.
pub fn run(name: &str, worktrees: &Vec<WorktreeInfo>) -> (r: Result<String, GwikError>)
    ensures
        r is Ok <==> exists|i: int| first_named(paths_of(worktrees@), name@, i),
        forall|i: int| first_named(paths_of(worktrees@), name@, i)
            ==> r is Ok && r->Ok_0@ == cd_line(paths_of(worktrees@)[i]),
        r is Err ==> r->Err_0 is NotFound && r->Err_0->NotFound_name@ == name@
            && views_of(r->Err_0->NotFound_available@) == names_of(paths_of(worktrees@)),
{
    let target = name.to_owned();
    let mut i: usize = 0;
    while i < worktrees.len()
        invariant
            i <= worktrees@.len(),
            target@ == name@,
            forall|j: int| 0 <= j < i ==> last_segment(#[trigger] paths_of(worktrees@)[j]) != name@,
        decreases worktrees@.len() - i,
    {
        let n = file_name(worktrees[i].path.as_str());
        if n == target {
            proof {
                assert(first_named(paths_of(worktrees@), name@, i as int));
                assert forall|k: int| first_named(paths_of(worktrees@), name@, k) implies k == i by {
                    if k < i {
                    } else if k > i {
                        assert(last_segment(paths_of(worktrees@)[i as int]) != name@);
                    }
                }
            }
            return Ok(cd_command(worktrees[i].path.as_str()));
        }
        i = i + 1;
    }
    Err(GwikError::NotFound { name: target, available: worktree_names(worktrees) })
}

} // verus!
