//! Facts about character sequences that the messages and commands rely on.
use vstd::prelude::*;
use vstd::string::StringExecFns;

verus! {

/// `t` occurs somewhere inside `s`.
pub open spec fn contains(s: Seq<char>, t: Seq<char>) -> bool {
    exists|i: int| 0 <= i <= s.len() - t.len() && #[trigger] s.subrange(i, i + t.len()) == t
}

/// Whatever is appended to a prefix occurs in the result.
pub proof fn lemma_contains_suffix(p: Seq<char>, t: Seq<char>)
    ensures
        contains(p + t, t),
{
    assert((p + t).subrange(p.len() as int, (p.len() + t.len()) as int) =~= t);
}

/// The concatenation of two strings, as a new `String`.
pub fn join2(a: &str, b: &str) -> (r: String)
    ensures
        r@ == a@ + b@,
{
    String::from_str(a).concat(b)
}

/// The concatenation of three strings, as a new `String`.
pub fn join3(a: &str, b: &str, c: &str) -> (r: String)
    ensures
        r@ == a@ + b@ + c@,
{
    String::from_str(a).concat(b).concat(c)
}

/// Whether two strings hold the same characters.
pub fn same_text(a: &str, b: &str) -> (r: bool)
    ensures
        r == (a@ == b@),
{
    a.to_owned() == b.to_owned()
}

} // verus!
