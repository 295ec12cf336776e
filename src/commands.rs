//! Decision logic of the commands; the caller performs the I/O.
use vstd::prelude::*;
use vstd::string::StringExecFns;

pub mod cd;
pub mod close;
pub mod list;
pub mod open;

verus! {

/// The change-directory instruction for `path`.
pub open spec fn cd_line(path: Seq<char>) -> Seq<char> {
    "cd "@ + path
}

/// Whether a trimmed, lower-cased answer accepts.
pub open spec fn accepts(normalized: Seq<char>) -> bool {
    normalized == "y"@ || normalized == "yes"@
}

/// Names what `str::trim` makes of a string.
pub uninterp spec fn trimmed(s: Seq<char>) -> Seq<char>;

/// Names what `str::to_lowercase` makes of a string.
pub uninterp spec fn lowercased(s: Seq<char>) -> Seq<char>;

/// Relies on `str::trim`: the string without leading and trailing
/// whitespace; the result depends on the characters alone.
#[verifier::external_body]
fn trim(s: &str) -> (r: String)
    ensures
        r@ == trimmed(s@),
{
    s.trim().to_owned()
}

/// Relies on `str::to_lowercase`: the lower-case form of a string; the
/// result depends on the characters alone.
#[verifier::external_body]
fn to_lowercase(s: &str) -> (r: String)
    ensures
        r@ == lowercased(s@),
{
    s.to_lowercase()
}

/// The change-directory instruction for `path`.
pub fn cd_command(path: &str) -> (r: String)
    ensures
        r@ == cd_line(path@),
{
    let mut r = "cd ".to_owned();
    r.append(path);
    r
}

/// Whether an answer already trimmed and lower-cased accepts: `y` or `yes`.
pub fn accepts_normalized(normalized: &str) -> (r: bool)
    ensures
        r == accepts(normalized@),
{
    let n = normalized.to_owned();
    n == "y".to_owned() || n == "yes".to_owned()
}

/// Whether an answer to a confirmation prompt accepts; anything else,
/// an empty answer included, declines.
pub fn is_affirmative(answer: &str) -> (r: bool)
    ensures
        r == accepts(lowercased(trimmed(answer@))),
{
    let t = trim(answer);
    let l = to_lowercase(t.as_str());
    accepts_normalized(l.as_str())
}

} // verus!
