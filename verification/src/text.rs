//! Text helpers that the binding table is built on.

use vstd::prelude::*;
use vstd::string::*;
use vstd::utf8::{encode_utf8_decode_utf8, is_ascii_chars};

verus! {

/// The upper case of a text by Unicode's rules, as `str::to_uppercase`
/// returns it. Of a text that is not ASCII the library knows it by this name
/// only.
pub uninterp spec fn uppercase_of(s: Seq<char>) -> Seq<char>;

/// A character with a lower-case ASCII letter made upper-case.
pub open spec fn ascii_upper_char(c: char) -> char {
    if 'a' <= c && c <= 'z' {
        ((c as u32 - 32) as u32) as char
    } else {
        c
    }
}

/// A text with its lower-case ASCII letters made upper-case.
pub open spec fn ascii_upper(s: Seq<char>) -> Seq<char> {
    Seq::new(s.len(), |i: int| ascii_upper_char(s[i]))
}

/// Calls `str::to_uppercase` of the standard library. The contract is taken
/// on trust. It says two things. The result is a function of the text alone,
/// the one that `uppercase_of` names. And of an ASCII text the result is the
/// text with `a` to `z` made `A` to `Z` and nothing else changed: the
/// standard library's documentation has the function upper-case the ASCII
/// characters as `to_ascii_uppercase` does, and leave a character without an
/// upper case as it is.
#[verifier::external_body]
pub(crate) fn to_uppercase(s: &str) -> (upper: String)
    ensures
        upper@ == uppercase_of(s@),
        is_ascii_chars(s@) ==> upper@ == ascii_upper(s@),
{
    s.to_uppercase()
}

/// Whether two texts hold the same characters.
pub fn str_eq(a: &str, b: &str) -> (same: bool)
    ensures
        same == (a@ == b@),
{
    let x = a.as_bytes();
    let y = b.as_bytes();
    if x.len() != y.len() {
        return false;
    }
    let mut i: usize = 0;
    while i < x.len()
        invariant
            i <= x@.len(),
            x@.len() == y@.len(),
            x@ == a.spec_bytes(),
            y@ == b.spec_bytes(),
            forall|j: int| 0 <= j < i ==> x@[j] == y@[j],
        decreases x@.len() - i,
    {
        if x[i] != y[i] {
            return false;
        }
        i += 1;
    }
    proof {
        assert(x@ =~= y@);
        encode_utf8_decode_utf8(a@);
        encode_utf8_decode_utf8(b@);
    }
    true
}

} // verus!
