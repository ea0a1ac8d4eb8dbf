//! Decoding of raw name and comment bytes to text.
//!
//! A directory record's flag word selects the encoding: UTF-8 (decoded
//! lossily, so decoding never fails) when the flag is set, and otherwise a
//! legacy fixed 256-entry code-page table under which every byte value maps
//! to one character.

use vstd::prelude::*;

verus! {

/// The text UTF-8 lossy decoding yields for the given bytes.
pub uninterp spec fn utf8_lossy_of(bytes: Seq<u8>) -> Seq<char>;

/// The text the legacy code-page table yields for the given bytes.
pub uninterp spec fn cp437_of(bytes: Seq<u8>) -> Seq<char>;

/// Whether every byte is in the seven-bit ASCII range.
pub open spec fn all_ascii(bytes: Seq<u8>) -> bool {
    forall|i: int| 0 <= i < bytes.len() ==> bytes[i] < 0x80
}

/// The characters of a seven-bit ASCII byte sequence, one per byte.
pub open spec fn ascii_chars_of(bytes: Seq<u8>) -> Seq<char> {
    Seq::new(bytes.len(), |i: int| bytes[i] as char)
}

/// The text raw name or comment bytes decode to: UTF-8 lossy decoding when
/// the UTF-8 flag is set, the legacy code page otherwise.
pub open spec fn decoded_text(bytes: Seq<u8>, is_utf8: bool) -> Seq<char> {
    if is_utf8 {
        utf8_lossy_of(bytes)
    } else {
        cp437_of(bytes)
    }
}

/// Relies on `String::from_utf8_lossy`: the result depends on the bytes
/// alone, and bytes that are valid UTF-8 — in particular, ASCII-only bytes —
/// pass through unchanged.
#[verifier::external_body]
fn from_utf8_lossy(bytes: &Vec<u8>) -> (r: String)
    ensures
        r@ == utf8_lossy_of(bytes@),
        all_ascii(bytes@) ==> r@ == ascii_chars_of(bytes@),
{
    String::from_utf8_lossy(bytes).into_owned()
}

/// Relies on `codepage_437`'s `CP437_CONTROL` table: every byte decodes to
/// exactly one character, and the table is the identity on bytes below 0x80.
#[verifier::external_body]
fn from_cp437(bytes: &Vec<u8>) -> (r: String)
    ensures
        r@ == cp437_of(bytes@),
        r@.len() == bytes@.len(),
        forall|i: int| 0 <= i < bytes@.len() && bytes@[i] < 0x80 ==> r@[i] == (bytes@[i] as char),
{
    <String as codepage_437::BorrowFromCp437<Vec<u8>>>::borrow_from_cp437(
        bytes,
        &codepage_437::CP437_CONTROL,
    )
}

/// Decodes raw name or comment bytes per the UTF-8 flag. ASCII-only bytes
/// decode to the same text whether the flag is set or cleared.
pub fn decode_text(bytes: &Vec<u8>, is_utf8: bool) -> (r: String)
    ensures
        r@ == decoded_text(bytes@, is_utf8),
        all_ascii(bytes@) ==> r@ == ascii_chars_of(bytes@),
{
    if is_utf8 {
        from_utf8_lossy(bytes)
    } else {
        let r = from_cp437(bytes);
        proof {
            if all_ascii(bytes@) {
                assert(r@ =~= ascii_chars_of(bytes@));
            }
        }
        r
    }
}

} // verus!
