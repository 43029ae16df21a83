//! ASCII case folding, used to resolve command verbs case-insensitively.

use vstd::prelude::*;

verus! {

/// The code point of `c`, with an ASCII capital letter folded to its
/// lowercase form; every other character is left as it is.
pub open spec fn lower_char(c: char) -> int {
    if 'A' <= c && c <= 'Z' {
        c as int + 32
    } else {
        c as int
    }
}

/// The folded code points of `s`: two strings are equal up to ASCII case
/// exactly when their folded sequences are equal.
pub open spec fn lower_seq(s: Seq<char>) -> Seq<int> {
    Seq::new(s.len(), |i: int| lower_char(s[i]))
}

/// Folded code point of one character.
fn lower_code(c: char) -> (l: u32)
    ensures
        l as int == lower_char(c),
{
    let u = c as u32;
    if 'A' <= c && c <= 'Z' {
        u + 32
    } else {
        u
    }
}

/// ASCII-case-insensitive string equality.
pub fn eq_ignore_ascii_case(a: &str, b: &str) -> (r: bool)
    ensures
        r <==> lower_seq(a@) == lower_seq(b@),
{
    let a_len = a.unicode_len();
    let b_len = b.unicode_len();
    if a_len != b_len {
        assert(lower_seq(a@).len() != lower_seq(b@).len());
        return false;
    }
    let mut i: usize = 0;
    while i < a_len
        invariant
            a_len == a@.len(),
            b_len == b@.len(),
            a@.len() == b@.len(),
            i <= a_len,
            forall|j: int| 0 <= j < i ==> lower_char(a@[j]) == lower_char(b@[j]),
        decreases a_len - i,
    {
        let ca = a.get_char(i);
        let cb = b.get_char(i);
        if lower_code(ca) != lower_code(cb) {
            assert(lower_seq(a@)[i as int] != lower_seq(b@)[i as int]);
            return false;
        }
        i += 1;
    }
    proof {
        assert(lower_seq(a@) =~= lower_seq(b@));
    }
    true
}

} // verus!
