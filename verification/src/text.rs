//! Small helpers on strings, stated over their character sequences.

use vstd::prelude::*;

verus! {

/// A character that separates the components of a path, on any platform.
pub open spec fn is_separator(c: char) -> bool {
    c == '/' || c == '\\'
}

/// Whether some character of `s` separates path components.
pub open spec fn has_separator(s: Seq<char>) -> bool {
    exists|i: int| 0 <= i < s.len() && is_separator(#[trigger] s[i])
}

/// Whether `s` ends with `tail`.
pub open spec fn ends_with(s: Seq<char>, tail: Seq<char>) -> bool {
    s.len() >= tail.len() && s.subrange(s.len() - tail.len(), s.len() as int) == tail
}

/// Scans `s` for a path separator.
pub fn contains_separator(s: &str) -> (found: bool)
    ensures
        found == has_separator(s@),
{
    let mut found = false;
    for c in it: s.chars()
        invariant
            it.seq() == s@,
            found == has_separator(s@.take(it.index() as int)),
    {
        let ghost seen = s@.take(it.index() as int);
        let ghost grown = s@.take(it.index() + 1);
        proof {
            assert(grown.drop_last() == seen);
            assert(grown.last() == c);
            if has_separator(seen) {
                let i = choose|i: int| 0 <= i < seen.len() && is_separator(#[trigger] seen[i]);
                assert(is_separator(grown[i]));
            }
            if has_separator(grown) && !is_separator(c) {
                let i = choose|i: int| 0 <= i < grown.len() && is_separator(#[trigger] grown[i]);
                assert(is_separator(seen[i]));
            }
            if is_separator(c) {
                assert(is_separator(grown[grown.len() - 1]));
            }
        }
        if c == '/' || c == '\\' {
            found = true;
        }
    }
    assert(s@.take(s@.len() as int) == s@);
    found
}

/// `a` followed by `b`, as a new string.
pub fn join(a: &str, b: &str) -> (joined: String)
    ensures
        joined@ == a@ + b@,
{
    let mut joined = String::from_str(a);
    joined.append(b);
    joined
}

} // verus!
