//! The few operations on names that the export of metrics needs.

use vstd::prelude::*;
use vstd::string::*;

verus! {

/// The text that follows `prefix` in `text`, where `text` begins with it.
pub fn strip_prefix(text: &str, prefix: &str) -> (rest: Option<String>)
    ensures
        rest is Some <==> prefix@.is_prefix_of(text@),
        rest matches Some(r) ==> r@ == text@.skip(prefix@.len() as int),
{
    let n: usize = prefix.unicode_len();
    let m: usize = text.unicode_len();
    if m < n {
        return None;
    }
    let mut i: usize = 0;
    while i < n
        invariant
            i <= n,
            n == prefix@.len(),
            m == text@.len(),
            n <= m,
            forall|j: int| 0 <= j < i ==> prefix@[j] == text@[j],
        decreases n - i,
    {
        if prefix.get_char(i) != text.get_char(i) {
            assert(prefix@[i as int] != text@.subrange(0, n as int)[i as int]);
            return None;
        }
        i = i + 1;
    }
    assert(prefix@ =~= text@.subrange(0, n as int));
    let rest = text.substring_char(n, m);
    assert(text@.subrange(n as int, m as int) =~= text@.skip(n as int));
    Some(String::from_str(rest))
}

/// `text` followed by `suffix`.
pub fn with_suffix(text: &str, suffix: &str) -> (joined: String)
    ensures
        joined@ == text@ + suffix@,
{
    let mut joined = String::from_str(text);
    joined.append(suffix);
    joined
}

} // verus!
