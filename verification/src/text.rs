//! Small verified text utilities: string comparison and the screen-name rule.

use vstd::prelude::*;
use vstd::string::StrSliceExecFns;

verus! {

/// Whether two string slices hold the same characters.
pub fn str_eq(a: &str, b: &str) -> (r: bool)
    ensures
        r == (a@ == b@),
{
    let a_len = a.unicode_len();
    let b_len = b.unicode_len();
    if a_len != b_len {
        return false;
    }
    let mut i: usize = 0;
    while i < a_len
        invariant
            i <= a_len,
            a_len == a@.len(),
            a_len == b@.len(),
            forall|j: int| 0 <= j < i ==> a@[j] == b@[j],
        decreases a_len - i,
    {
        if a.get_char(i) != b.get_char(i) {
            return false;
        }
        i += 1;
    }
    proof {
        assert(a@ =~= b@);
    }
    true
}

/// A character allowed in a screen name: an ASCII letter, digit or underscore.
pub open spec fn is_screen_name_char(c: char) -> bool {
    ||| 'a' <= c && c <= 'z'
    ||| 'A' <= c && c <= 'Z'
    ||| '0' <= c && c <= '9'
    ||| c == '_'
}

/// The screen-name policy: at least three characters, all ASCII letters,
/// digits or underscores.
pub open spec fn is_valid_screen_name(s: Seq<char>) -> bool {
    &&& s.len() >= 3
    &&& forall|i: int| 0 <= i < s.len() ==> is_screen_name_char(#[trigger] s[i])
}

/// Check a proposed screen name against the policy.
pub fn screen_name_meets_policy(s: &str) -> (r: bool)
    ensures
        r == is_valid_screen_name(s@),
{
    let len = s.unicode_len();
    if len < 3 {
        return false;
    }
    let mut i: usize = 0;
    while i < len
        invariant
            i <= len,
            len == s@.len(),
            len >= 3,
            forall|j: int| 0 <= j < i ==> is_screen_name_char(#[trigger] s@[j]),
        decreases len - i,
    {
        let c = s.get_char(i);
        let ok = (c >= 'a' && c <= 'z') || (c >= 'A' && c <= 'Z') || (c >= '0' && c <= '9') || c
            == '_';
        if !ok {
            return false;
        }
        i += 1;
    }
    true
}

} // verus!
