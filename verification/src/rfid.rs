//! Card-code derivation from scanned credential UIDs.
//!
//! A credential UID is a byte span handed over by the card-reader driver.
//! Exactly the first four bytes of a four-byte UID form the card code,
//! little-endian; a UID of any other length maps to the sentinel code 0
//! rather than an error, so the scan loop never halts on an odd tag.

use vstd::prelude::*;

verus! {

/// The little-endian 32-bit value of a four-byte span.
pub open spec fn le_u32_of(bytes: Seq<u8>) -> int
    recommends
        bytes.len() == 4,
{
    bytes[0] + 0x100 * bytes[1] + 0x1_0000 * bytes[2] + 0x100_0000 * bytes[3]
}

/// The card code of a UID: its little-endian value when it has exactly
/// four bytes, and the sentinel 0 otherwise.
pub open spec fn card_code_of(bytes: Seq<u8>) -> int {
    if bytes.len() == 4 {
        le_u32_of(bytes)
    } else {
        0
    }
}

/// Decodes exactly four UID bytes as a little-endian `u32`; any other
/// length yields `None`.
pub fn to_u32(bytes: &[u8]) -> (r: Option<u32>)
    ensures
        bytes@.len() == 4 ==> r == Some((le_u32_of(bytes@) as u32)) && le_u32_of(bytes@) <= u32::MAX,
        bytes@.len() != 4 ==> r is None,
{
    if bytes.len() == 4 {
        let b0 = bytes[0] as u32;
        let b1 = bytes[1] as u32;
        let b2 = bytes[2] as u32;
        let b3 = bytes[3] as u32;
        Some(b0 + 0x100 * b1 + 0x1_0000 * b2 + 0x100_0000 * b3)
    } else {
        None
    }
}

/// The card code of a scanned UID: the little-endian value of a four-byte
/// UID, and the sentinel 0 for every other length.
pub fn card_code(bytes: &[u8]) -> (code: u32)
    ensures
        code == card_code_of(bytes@),
{
    match to_u32(bytes) {
        Some(code) => code,
        None => 0,
    }
}

} // verus!
