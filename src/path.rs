//! Paths as character sequences, with `/` as the separator.
use vstd::prelude::*;
use vstd::string::StringExecFns;

use crate::text::{chars_of, push_char, string_from};

verus! {

/// `part` adjoined to `base`: an absolute `part` replaces `base`; otherwise a
/// separator is put between the two unless `base` is empty or already ends in one.
pub open spec fn join_path(base: Seq<char>, part: Seq<char>) -> Seq<char> {
    if part.len() > 0 && part[0] == '/' {
        part
    } else if base.len() == 0 || base.last() == '/' {
        base + part
    } else {
        base + seq!['/'] + part
    }
}

/// The final segment of a path: what follows its last separator.
pub open spec fn last_segment(p: Seq<char>) -> Seq<char>
    decreases p.len(),
{
    if p.len() == 0 {
        p
    } else if p.last() == '/' {
        Seq::empty()
    } else {
        last_segment(p.drop_last()).push(p.last())
    }
}

/// The final segment is no longer than the path.
pub proof fn lemma_last_segment_len(p: Seq<char>)
    ensures
        last_segment(p).len() <= p.len(),
    decreases p.len(),
{
    if p.len() > 0 && p.last() != '/' {
        lemma_last_segment_len(p.drop_last());
    }
}

/// Whether `p` is `base` itself or lies below it, segment-wise.
pub open spec fn path_within(p: Seq<char>, base: Seq<char>) -> bool {
    p == base || (base.is_prefix_of(p) && (
        (base.len() > 0 && base.last() == '/') || p[base.len() as int] == '/'))
}

/// Adjoins `part` to `base` (see [`join_path`]).
pub fn join(base: &str, part: &str) -> (r: String)
    ensures
        r@ == join_path(base@, part@),
{
    let b = chars_of(base);
    let p = chars_of(part);
    if p.len() > 0 && p[0] == '/' {
        return part.to_owned();
    }
    let mut r = base.to_owned();
    if b.len() > 0 && b[b.len() - 1] != '/' {
        push_char(&mut r, '/');
    }
    r.append(part);
    r
}

/// The final segment of `p` (see [`last_segment`]).
pub fn file_name(p: &str) -> (r: String)
    ensures
        r@ == last_segment(p@),
{
    let v = chars_of(p);
    let mut i = v.len();
    assert(v@.take(i as int) =~= v@);
    assert(last_segment(v@) + v@.skip(i as int) =~= last_segment(v@));
    while i > 0 && v[i - 1] != '/'
        invariant
            i <= v@.len(),
            v@ == p@,
            last_segment(v@) == last_segment(v@.take(i as int)) + v@.skip(i as int),
        decreases i,
    {
        proof {
            let t = v@.take(i as int);
            assert(t.drop_last() =~= v@.take(i - 1));
            assert(v@.skip(i - 1) =~= seq![t.last()] + v@.skip(i as int));
            assert(last_segment(t) == last_segment(t.drop_last()).push(t.last()));
            assert(last_segment(t.drop_last()).push(t.last()) + v@.skip(i as int)
                =~= last_segment(t.drop_last()) + v@.skip(i - 1));
        }
        i = i - 1;
    }
    proof {
        let t = v@.take(i as int);
        if i > 0 {
            assert(t.last() == '/');
        }
        assert(last_segment(t) =~= Seq::empty());
        assert(Seq::<char>::empty() + v@.skip(i as int) =~= v@.skip(i as int));
    }
    string_from(&v, i)
}

/// Whether `p` is `base` or lies below it (see [`path_within`]).
pub fn is_within(p: &str, base: &str) -> (r: bool)
    ensures
        r == path_within(p@, base@),
{
    let pv = chars_of(p);
    let bv = chars_of(base);
    if !crate::text::has_prefix(&pv, &bv) {
        proof {
            if p@ == base@ {
                assert(base@.is_prefix_of(p@));
            }
        }
        return false;
    }
    if pv.len() == bv.len() {
        assert(p@ =~= base@);
        return true;
    }
    (bv.len() > 0 && bv[bv.len() - 1] == '/') || pv[bv.len()] == '/'
}

} // verus!
