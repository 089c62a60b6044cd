//! Query validation: a query is accepted only when it holds at least one
//! non-blank character; empty or all-blank queries are rejected before any
//! provider is invoked. Blank means whitespace in the Unicode sense: the
//! same character set that `str::trim` removes.

use vstd::prelude::*;
use vstd::string::StrSliceExecFns;

verus! {

/// A character that counts as blank for query validation: exactly the
/// Unicode White_Space set, the one `char::is_whitespace` recognises.
pub open spec fn blank_char(c: char) -> bool {
    let n = c as u32;
    ||| (0x09 <= n && n <= 0x0D)
    ||| n == 0x20
    ||| n == 0x85
    ||| n == 0xA0
    ||| n == 0x1680
    ||| (0x2000 <= n && n <= 0x200A)
    ||| n == 0x2028
    ||| n == 0x2029
    ||| n == 0x202F
    ||| n == 0x205F
    ||| n == 0x3000
}

/// A query is valid when at least one of its characters is not blank.
pub open spec fn query_ok(q: Seq<char>) -> bool {
    exists|i: int| 0 <= i < q.len() && !blank_char(q[i])
}

/// Decides whether one character is blank.
fn is_blank_char(c: char) -> (r: bool)
    ensures
        r == blank_char(c),
{
    let n = c as u32;
    (0x09 <= n && n <= 0x0D) || n == 0x20 || n == 0x85 || n == 0xA0 || n == 0x1680 || (0x2000 <= n
        && n <= 0x200A) || n == 0x2028 || n == 0x2029 || n == 0x202F || n == 0x205F || n == 0x3000
}

/// Decides validity of an actual query string.
pub fn query_is_valid(query: &str) -> (r: bool)
    ensures
        r == query_ok(query@),
{
    let n = query.unicode_len();
    let mut i: usize = 0;
    while i < n
        invariant
            n == query@.len(),
            i <= n,
            forall|k: int| 0 <= k < i ==> blank_char(#[trigger] query@[k]),
        decreases n - i,
    {
        let c = query.get_char(i);
        if !is_blank_char(c) {
            assert(!blank_char(query@[i as int]));
            return true;
        }
        i += 1;
    }
    false
}

} // verus!
