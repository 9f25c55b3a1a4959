//! Searching in text.

use vstd::prelude::*;

verus! {

/// Whether a text stands in another one at a position.
pub open spec fn occurs_at(text: Seq<char>, part: Seq<char>, at: int) -> bool {
    0 <= at && at + part.len() <= text.len() && text.subrange(at, at + part.len()) == part
}

/// Whether a text stands anywhere in another one.
pub open spec fn occurs(text: Seq<char>, part: Seq<char>) -> bool {
    exists|at: int| occurs_at(text, part, at)
}

/// Whether a text stands in another one at a position.
fn found_at(text: &str, part: &str, at: usize) -> (r: bool)
    requires
        at + part@.len() <= text@.len() <= usize::MAX,
    ensures
        r == occurs_at(text@, part@, at as int),
{
    let n: usize = part.unicode_len();
    let mut i: usize = 0;
    while i < n
        invariant
            i <= n == part@.len(),
            at + n <= text@.len() <= usize::MAX,
            forall|j: int| 0 <= j < i ==> text@[at + j] == part@[j],
        decreases n - i,
    {
        if text.get_char(at + i) != part.get_char(i) {
            proof {
                assert(text@.subrange(at as int, at + part@.len())[i as int] == text@[at + i]);
            }
            return false;
        }
        i = i + 1;
    }
    proof {
        assert(text@.subrange(at as int, at + part@.len()) =~= part@);
    }
    true
}

/// Whether a text stands anywhere in another one.
pub fn contains(text: &str, part: &str) -> (r: bool)
    ensures
        r == occurs(text@, part@),
{
    let n: usize = text.unicode_len();
    let m: usize = part.unicode_len();
    if m > n {
        return false;
    }
    let last: usize = n - m;
    let mut at: usize = 0;
    loop
        invariant
            n == text@.len(),
            m == part@.len(),
            at <= last == n - m,
            forall|j: int| 0 <= j < at ==> !occurs_at(text@, part@, j),
        decreases last - at,
    {
        if found_at(text, part, at) {
            return true;
        }
        if at == last {
            proof {
                assert(forall|j: int| !occurs_at(text@, part@, j));
            }
            return false;
        }
        at = at + 1;
    }
}

} // verus!
