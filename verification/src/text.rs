//! String comparison helpers: exact equality and ASCII case-insensitive
//! equality, specified over `Seq<char>` views.

use vstd::prelude::*;
use vstd::string::StrSliceExecFns;

verus! {

/// The code point of `c` after folding an ASCII lowercase letter to its
/// uppercase counterpart; any other character is left as it is.
pub open spec fn ascii_upper(c: char) -> u32 {
    if 97 <= c as u32 && c as u32 <= 122 {
        (c as u32 - 32) as u32
    } else {
        c as u32
    }
}

/// The sequence of case-folded code points of `s`.
pub open spec fn ascii_upper_seq(s: Seq<char>) -> Seq<u32> {
    Seq::new(s.len(), |i: int| ascii_upper(s[i]))
}

/// Two character sequences are equal up to ASCII case.
pub open spec fn eq_ignore_ascii(s: Seq<char>, t: Seq<char>) -> bool {
    ascii_upper_seq(s) == ascii_upper_seq(t)
}

/// Exact, case-sensitive string equality.
pub fn str_eq(a: &str, b: &str) -> (r: bool)
    ensures
        r == (a@ == b@),
{
    let alen = a.unicode_len();
    let blen = b.unicode_len();
    if alen != blen {
        return false;
    }
    let mut i: usize = 0;
    while i < alen
        invariant
            i <= alen,
            a@.len() == alen as nat,
            b@.len() == alen as nat,
            forall|j: int| 0 <= j < i ==> a@[j] == b@[j],
        decreases alen - i,
    {
        if a.get_char(i) != b.get_char(i) {
            return false;
        }
        i += 1;
    }
    proof {
        assert(a@ =~= b@);
    }
    true
}

/// The case-folded code point of one character.
fn ascii_upper_of(c: char) -> (r: u32)
    ensures
        r == ascii_upper(c),
{
    let u: u32 = c as u32;
    if 97 <= u && u <= 122 {
        u - 32
    } else {
        u
    }
}

/// ASCII case-insensitive string equality.
pub fn str_eq_ignore_ascii_case(a: &str, b: &str) -> (r: bool)
    ensures
        r == eq_ignore_ascii(a@, b@),
{
    let alen = a.unicode_len();
    let blen = b.unicode_len();
    if alen != blen {
        proof {
            assert(ascii_upper_seq(a@).len() != ascii_upper_seq(b@).len());
        }
        return false;
    }
    let mut i: usize = 0;
    while i < alen
        invariant
            i <= alen,
            a@.len() == alen as nat,
            b@.len() == alen as nat,
            forall|j: int| 0 <= j < i ==> ascii_upper(a@[j]) == ascii_upper(b@[j]),
        decreases alen - i,
    {
        let ca = a.get_char(i);
        let cb = b.get_char(i);
        if ascii_upper_of(ca) != ascii_upper_of(cb) {
            proof {
                assert(ascii_upper_seq(a@)[i as int] != ascii_upper_seq(b@)[i as int]);
            }
            return false;
        }
        i += 1;
    }
    proof {
        assert(ascii_upper_seq(a@) =~= ascii_upper_seq(b@));
    }
    true
}

} // verus!
