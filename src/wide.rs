//! Null-terminated UTF-16 strings, the form in which text crosses the
//! system boundary.
use vstd::prelude::*;
use widestring::U16CString;

verus! {

/// The UTF-16 code units of one character.
pub open spec fn utf16_units(c: char) -> Seq<u16> {
    let v = c as u32;
    if v < 0x10000 {
        seq![v as u16]
    } else {
        let w = (v - 0x10000) as u32;
        seq![(0xD800 + w / 0x400) as u16, (0xDC00 + w % 0x400) as u16]
    }
}

/// The UTF-16 code units of a character sequence.
pub open spec fn utf16_of(s: Seq<char>) -> Seq<u16>
    decreases s.len(),
{
    if s.len() == 0 {
        Seq::empty()
    } else {
        utf16_of(s.drop_last()) + utf16_units(s.last())
    }
}

/// A unit sequence can be handed to the system: no nul unit stands before
/// its last position.
pub open spec fn nul_free_but_last(u: Seq<u16>) -> bool {
    forall|i: int| 0 <= i < u.len() - 1 ==> u[i] != 0
}

/// `u` with a nul terminator, unless it already ends in one.
pub open spec fn terminated(u: Seq<u16>) -> Seq<u16> {
    if u.len() > 0 && u.last() == 0 {
        u
    } else {
        u.push(0)
    }
}

/// What encoding `s` gives: `None` where an interior nul forbids it.
pub open spec fn wide_of(s: Seq<char>) -> Option<Seq<u16>> {
    if nul_free_but_last(utf16_of(s)) {
        Some(terminated(utf16_of(s)))
    } else {
        None
    }
}

/// Relies on `widestring::U16CString::from_str`: it encodes the text as UTF-16
/// and fails on a nul unit anywhere but last; `into_vec_with_nul` then hands
/// out the units with the terminator it appends where none ends them.
#[verifier::external_body]
pub(crate) fn encode_wide(s: &str) -> (r: Option<Vec<u16>>)
    ensures
        r is Some <==> wide_of(s@) is Some,
        r is Some ==> r->Some_0@ == wide_of(s@)->Some_0,
{
    U16CString::from_str(s).ok().map(|w| w.into_vec_with_nul())
}

} // verus!
