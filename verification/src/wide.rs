//! Names as the server takes them: UTF-16 code units with a terminating
//! nul.

use vstd::prelude::*;

verus! {

/// The UTF-16 code units of a character: the character itself below
/// U+10000, a pair of surrogates from there on.
pub open spec fn utf16_of_char(c: char) -> Seq<u16> {
    let code = c as u32;
    if code < 0x10000 {
        seq![code as u16]
    } else {
        let offset = (code - 0x10000) as u32;
        seq![(0xD800 + (offset >> 10)) as u16, (0xDC00 + (offset & 0x3FF)) as u16]
    }
}

/// The UTF-16 code units of a text.
pub open spec fn utf16_of(text: Seq<char>) -> Seq<u16>
    decreases text.len(),
{
    if text.len() == 0 {
        Seq::empty()
    } else {
        utf16_of(text.drop_last()) + utf16_of_char(text.last())
    }
}

/// The UTF-16 code units of a text, with one terminating nul: a text that
/// ends with a nul already gets no second one.
pub open spec fn nul_terminated_utf16(text: Seq<char>) -> Seq<u16> {
    let units = utf16_of(text);
    if units.len() > 0 && units.last() == 0 {
        units
    } else {
        units.push(0)
    }
}

/// Whether a nul stands in `text` anywhere but at its end.
pub open spec fn has_interior_nul(text: Seq<char>) -> bool {
    exists|i: int| 0 <= i < text.len() - 1 && text[i] == '\0'
}

/// The wide form of `text`.
///
/// Calls `widestring::U16CString::from_str` and takes the code units,
/// terminator included, out of the result with `into_vec_with_nul`. The
/// contract claims what the documentation of the two says: a text with a
/// nul before its last character is refused and every other text is
/// accepted, and the units are the UTF-16 encoding of the text, ended by
/// one nul.
#[verifier::external_body]
fn wide_c_string(text: &str) -> (wide: Option<Vec<u16>>)
    ensures
        wide is None <==> has_interior_nul(text@),
        wide matches Some(units) ==> units@ == nul_terminated_utf16(text@),
{
    match widestring::U16CString::from_str(text) {
        Ok(wide) => Some(wide.into_vec_with_nul()),
        Err(_) => None,
    }
}

/// The wide form of a name, for a call that takes a nul-terminated wide
/// string. None for a name with a nul before its last character, which no
/// such string can hold.
pub fn to_wide(text: &str) -> (wide: Option<Vec<u16>>)
    ensures
        wide is None <==> has_interior_nul(text@),
        wide matches Some(units) ==> {
            &&& units@ == nul_terminated_utf16(text@)
            &&& units@.len() >= 1
            &&& units@.last() == 0
        },
{
    wide_c_string(text)
}

} // verus!
