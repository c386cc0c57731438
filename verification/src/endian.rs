//! Byte order of a message-table binary, and its detection from the
//! header's byte-order mark.

use vstd::prelude::*;

verus! {

/// Byte order of a message-table binary, as announced by the byte-order
/// mark in its header.
#[derive(Clone, Copy, Debug, PartialEq, Eq, Structural)]
pub enum Endian {
    Big,
    Little,
}

/// What the header of `bytes` announces about its byte order.
///
/// The byte-order mark sits at offsets 8 and 9: `FE FF` announces
/// big-endian, `FF FE` little-endian. A buffer too short to hold the
/// mark, or one whose mark matches neither pattern, leaves the order
/// undetermined (`None`); that is a valid outcome, not an error.
pub open spec fn detect_endian(bytes: Seq<u8>) -> Option<Endian> {
    if bytes.len() < 10 {
        None
    } else if bytes[8] == 0xFEu8 && bytes[9] == 0xFFu8 {
        Some(Endian::Big)
    } else if bytes[8] == 0xFFu8 && bytes[9] == 0xFEu8 {
        Some(Endian::Little)
    } else {
        None
    }
}

/// The detector is total and pure: every byte sequence falls under
/// exactly one of these four cases, stated here over the two-byte
/// window `bytes[8..10]` itself.
pub proof fn lemma_detect_endian_cases(bytes: Seq<u8>)
    ensures
        bytes.len() < 10 ==> detect_endian(bytes) is None,
        bytes.len() >= 10 && bytes.subrange(8, 10) == seq![0xFEu8, 0xFFu8] ==> detect_endian(
            bytes,
        ) == Some(Endian::Big),
        bytes.len() >= 10 && bytes.subrange(8, 10) == seq![0xFFu8, 0xFEu8] ==> detect_endian(
            bytes,
        ) == Some(Endian::Little),
        bytes.len() >= 10 && bytes.subrange(8, 10) != seq![0xFEu8, 0xFFu8] && bytes.subrange(
            8,
            10,
        ) != seq![0xFFu8, 0xFEu8] ==> detect_endian(bytes) is None,
{
    if bytes.len() >= 10 {
        assert(bytes.subrange(8, 10)[0] == bytes[8]);
        assert(bytes.subrange(8, 10)[1] == bytes[9]);
        if bytes[8] == 0xFEu8 && bytes[9] == 0xFFu8 {
            assert(bytes.subrange(8, 10) =~= seq![0xFEu8, 0xFFu8]);
        }
        if bytes[8] == 0xFFu8 && bytes[9] == 0xFEu8 {
            assert(bytes.subrange(8, 10) =~= seq![0xFFu8, 0xFEu8]);
        }
    }
}

} // verus!
