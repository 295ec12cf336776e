//! `list`: worktree paths, one per line.
use vstd::prelude::*;
use vstd::string::StringExecFns;

use crate::text::{push_char, views_of};

verus! {

/// Each path followed by a newline, in order.
pub open spec fn lines_text(paths: Seq<Seq<char>>) -> Seq<char>
    decreases paths.len(),
{
    if paths.len() == 0 {
        Seq::empty()
    } else {
        lines_text(paths.drop_last()) + paths.last() + seq!['\n']
    }
}

/// The output of a listing: each path on a line of its own.
pub fn run(paths: &Vec<String>) -> (r: String)
    ensures
        r@ == lines_text(views_of(paths@)),
{
    let mut r = String::new();
    let mut i: usize = 0;
    while i < paths.len()
        invariant
            i <= paths@.len(),
            r@ == lines_text(views_of(paths@).take(i as int)),
        decreases paths@.len() - i,
    {
        proof {
            let t = views_of(paths@).take(i + 1);
            assert(t.drop_last() =~= views_of(paths@).take(i as int));
        }
        r.append(paths[i].as_str());
        push_char(&mut r, '\n');
        i = i + 1;
    }
    assert(views_of(paths@).take(i as int) =~= views_of(paths@));
    r
}

} // verus!
