//! Small operations on text that the rules of the gateway and of the engine
//! are written with.

use vstd::prelude::*;
use vstd::string::*;

verus! {

/// Says whether the two texts hold the same characters.
pub fn text_eq(a: &str, b: &str) -> (r: bool)
    ensures
        r == (a@ == b@),
{
    let x = a.to_owned();
    let y = b.to_owned();
    x == y
}

/// Says whether `text` begins with `prefix`.
pub fn has_prefix(text: &str, prefix: &str) -> (r: bool)
    ensures
        r == prefix@.is_prefix_of(text@),
{
    let n = text.unicode_len();
    let p = prefix.unicode_len();
    if p > n {
        return false;
    }
    let mut i: usize = 0;
    while i < p
        invariant
            i <= p <= n,
            n == text@.len(),
            p == prefix@.len(),
            forall|j: int| 0 <= j < i ==> text@[j] == prefix@[j],
        decreases p - i,
    {
        if text.get_char(i) != prefix.get_char(i) {
            return false;
        }
        i += 1;
    }
    assert(prefix@ =~= text@.subrange(0, prefix@.len() as int));
    true
}

/// Returns what follows `prefix` in `text`, or nothing if `text` does not
/// begin with `prefix`.
pub fn strip_prefix<'a>(text: &'a str, prefix: &str) -> (r: Option<&'a str>)
    ensures
        match r {
            Some(rest) => prefix@.is_prefix_of(text@) && rest@ == text@.skip(prefix@.len() as int),
            None => !prefix@.is_prefix_of(text@),
        },
{
    if has_prefix(text, prefix) {
        let n = text.unicode_len();
        let p = prefix.unicode_len();
        Some(text.substring_char(p, n))
    } else {
        None
    }
}

/// Returns the two texts joined, `head` first.
pub fn join(head: &str, tail: &str) -> (r: String)
    ensures
        r@ == head@ + tail@,
{
    String::from_str(head).concat(tail)
}

} // verus!
