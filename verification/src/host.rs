//! Recognising the host application by name.
//!
//! A probe of the host's focus reads the title of the foreground window, or
//! the name of its process. The host is the one whose name holds the word
//! `warframe`, in any mix of upper and lower case. A probe that can read no
//! name takes the host for inactive.

use vstd::prelude::*;

verus! {

/// The word that marks the host, in lower-case ASCII.
pub open spec fn host_word() -> Seq<u8> {
    seq![119u8, 97u8, 114u8, 102u8, 114u8, 97u8, 109u8, 101u8]
}

/// A byte with an upper-case ASCII letter made lower-case.
pub open spec fn ascii_lower(byte: u8) -> u8 {
    if 65 <= byte <= 90 {
        (byte + 32) as u8
    } else {
        byte
    }
}

/// Whether the host's word stands in a name at a position, whatever the case
/// of its letters.
pub open spec fn host_word_at(name: Seq<u8>, at: int) -> bool {
    &&& 0 <= at
    &&& at + host_word().len() <= name.len()
    &&& forall|j: int| 0 <= j < host_word().len() ==> ascii_lower(#[trigger] name[at + j]) == host_word()[j]
}

/// Whether a name holds the host's word.
pub open spec fn names_host(name: Seq<u8>) -> bool {
    exists|at: int| host_word_at(name, at)
}

/// A byte with an upper-case ASCII letter made lower-case.
fn to_ascii_lower(byte: u8) -> (lower: u8)
    ensures
        lower == ascii_lower(byte),
{
    if 65 <= byte && byte <= 90 {
        byte + 32
    } else {
        byte
    }
}

/// Whether the host's word stands in a name at a position.
fn is_host_word_at(name: &[u8], at: usize) -> (found: bool)
    requires
        at + 8 <= name@.len(),
    ensures
        found == host_word_at(name@, at as int),
{
    let word: [u8; 8] = [119, 97, 114, 102, 114, 97, 109, 101];
    assert(word@ =~= host_word());
    let len = name.len();
    let mut j: usize = 0;
    while j < 8
        invariant
            j <= 8,
            at + 8 <= name@.len(),
            name@.len() == len,
            word@ == host_word(),
            forall|k: int| 0 <= k < j ==> ascii_lower(#[trigger] name@[at + k]) == host_word()[k],
        decreases 8 - j,
    {
        if to_ascii_lower(name[at + j]) != word[j] {
            return false;
        }
        j += 1;
    }
    true
}

/// Whether a window title or a process name is the host's: whether it holds
/// the word `warframe`, whatever the case of its letters.
pub fn mentions_host(name: &[u8]) -> (found: bool)
    ensures
        found == names_host(name@),
{
    if name.len() < 8 {
        return false;
    }
    let last = name.len() - 8;
    let mut at: usize = 0;
    while at <= last
        invariant
            last + 8 == name@.len(),
            last + 8 <= usize::MAX,
            at <= last + 1,
            forall|k: int| 0 <= k < at ==> !host_word_at(name@, k),
        decreases last + 1 - at,
    {
        if is_host_word_at(name, at) {
            return true;
        }
        at += 1;
    }
    false
}

/// What a probe of the host's focus answers, given the name that it read
/// of the foreground window or process, if it could read one: whether that
/// name is the host's. A probe that could read no name answers that the host
/// is not in the foreground.
pub fn host_in_foreground(name: Option<&[u8]>) -> (active: bool)
    ensures
        active == (name matches Some(read) && names_host(read@)),
{
    match name {
        Some(read) => mentions_host(read),
        None => false,
    }
}

} // verus!
