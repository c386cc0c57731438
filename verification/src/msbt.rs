//! The conversion orchestrator: an immutable record pairing a message
//! table's text and binary forms, built by arbitrating between a
//! primary and a fallback codec backend.
//!
//! The backends are external collaborators. The caller attempts each
//! conversion itself and hands the outcomes in as plain values: `None`
//! stands for a backend that crashed, reported an error, or was never
//! run; `Some` carries what it produced. The constructors here own the
//! whole selection policy, and their contracts pin it down exactly:
//!
//! - text to binary: the primary encoder's output is preferred; the
//!   fallback encoder's output is taken only when the primary produced
//!   none; with neither, the construction fails.
//! - binary to text: an empty input and an undetermined byte order are
//!   rejected before any decode counts; the primary decoder's text is
//!   accepted only for little-endian input and only when non-empty;
//!   otherwise the fallback decoder's non-empty text is accepted;
//!   empty text from either decoder counts as silent failure.

use vstd::prelude::*;
use vstd::slice::slice_to_vec;
use crate::endian::{detect_endian, Endian};
use crate::error::MsbtError;

verus! {

/// The outcome a caller hands in, lifted to its mathematical view.
pub open spec fn outcome_view<T: View>(outcome: Option<T>) -> Option<<T as View>::V> {
    match outcome {
        Some(v) => Some(v@),
        None => None,
    }
}

/// A decoder's outcome is usable only when it produced text and that
/// text is non-empty: a table with genuinely empty content cannot be
/// told apart from a failed decode, and the policy treats both as
/// failure.
pub open spec fn usable_text(outcome: Option<Seq<char>>) -> bool {
    outcome matches Some(t) && t.len() > 0
}

/// Which decoder's text the arbitration adopts for a binary whose byte
/// order was detected as `endian`: the primary's, only when the input
/// is little-endian and its text is usable; else the fallback's, when
/// usable; else none.
pub open spec fn chosen_decode_text(
    endian: Endian,
    primary: Option<Seq<char>>,
    fallback: Option<Seq<char>>,
) -> Option<Seq<char>> {
    if endian == Endian::Little && usable_text(primary) {
        primary
    } else if usable_text(fallback) {
        fallback
    } else {
        None
    }
}

/// The complete binary-to-text policy: reject an empty input, then an
/// undetermined byte order, then adopt a decoder's text as
/// [`chosen_decode_text`] says, or fail.
pub open spec fn from_binary_spec(
    binary: Seq<u8>,
    primary: Option<Seq<char>>,
    fallback: Option<Seq<char>>,
) -> Result<Seq<char>, MsbtError> {
    if binary.len() == 0 {
        Err(MsbtError::EmptyInput)
    } else {
        match detect_endian(binary) {
            None => Err(MsbtError::UndeterminedEndianness),
            Some(endian) => match chosen_decode_text(endian, primary, fallback) {
                Some(text) => Ok(text),
                None => Err(MsbtError::BinaryToTextFailed),
            },
        }
    }
}

/// The complete text-to-binary policy: the primary encoder's bytes win
/// outright; the fallback encoder's bytes are taken only in their
/// absence; with neither, the conversion fails.
pub open spec fn from_text_spec(
    primary: Option<Seq<u8>>,
    fallback: Option<Seq<u8>>,
) -> Result<Seq<u8>, MsbtError> {
    match primary {
        Some(b) => Ok(b),
        None => match fallback {
            Some(b) => Ok(b),
            None => Err(MsbtError::TextToBinaryFailed),
        },
    }
}

/// An immutable record holding the text and binary forms of one
/// message table, together with the byte order its binary announces.
/// It is created only by [`MsbtCpp::from_text`] and
/// [`MsbtCpp::from_binary`], and never altered afterwards.
pub struct MsbtCpp {
    /// The textual representation.
    pub text: String,
    /// The binary representation.
    pub binary: Vec<u8>,
    /// The byte order announced by `binary`'s header, if any.
    pub endian: Option<Endian>,
}

impl MsbtCpp {
    /// A record is well-formed when its endian tag is exactly what the
    /// header of its own binary announces — it is derived from
    /// `binary` alone, never from `text` or from the caller.
    pub open spec fn wf(&self) -> bool {
        self.endian == detect_endian(self.binary@)
    }

    /// Classify `bytes` by the byte-order mark at offsets 8 and 9:
    /// `FE FF` is big-endian, `FF FE` little-endian, anything else —
    /// including a buffer shorter than 10 bytes — undetermined.
    pub fn check_endianness(bytes: &Vec<u8>) -> (r: Option<Endian>)
        ensures
            r == detect_endian(bytes@),
    {
        if bytes.len() >= 10 {
            let b8 = bytes[8];
            let b9 = bytes[9];
            if b8 == 0xFE && b9 == 0xFF {
                Some(Endian::Big)
            } else if b8 == 0xFF && b9 == 0xFE {
                Some(Endian::Little)
            } else {
                None
            }
        } else {
            None
        }
    }

    /// Build a record from text and the two encoders' outcomes,
    /// preferring the primary's bytes as [`from_text_spec`] says. On
    /// success the record keeps `text` verbatim, adopts the chosen
    /// bytes, and tags them with the byte order their header announces.
    pub fn from_text(
        text: &str,
        primary_binary: Option<Vec<u8>>,
        fallback_binary: Option<Vec<u8>>,
    ) -> (r: Result<MsbtCpp, MsbtError>)
        ensures
            ({
                let outcome = from_text_spec(
                    outcome_view(primary_binary),
                    outcome_view(fallback_binary),
                );
                match r {
                    Ok(m) => {
                        &&& outcome == Ok::<Seq<u8>, MsbtError>(m.binary@)
                        &&& m.text@ == text@
                        &&& m.endian == detect_endian(m.binary@)
                        &&& m.wf()
                    },
                    Err(e) => outcome == Err::<Seq<u8>, MsbtError>(e),
                }
            }),
            r is Err <==> primary_binary is None && fallback_binary is None,
    {
        let chosen: Vec<u8> = match primary_binary {
            Some(b) => b,
            None => match fallback_binary {
                Some(b) => b,
                None => {
                    return Err(MsbtError::TextToBinaryFailed);
                },
            },
        };
        let endian = Self::check_endianness(&chosen);
        Ok(MsbtCpp { text: text.to_owned(), binary: chosen, endian })
    }

    /// Build a record from a binary and the two decoders' outcomes,
    /// arbitrating exactly as [`from_binary_spec`] says: an empty
    /// input fails at once; a binary whose byte-order mark matches
    /// neither pattern fails next, whatever the decoders produced; the
    /// primary decoder's text counts only for a little-endian input
    /// and only when non-empty; the fallback decoder's non-empty text
    /// is accepted for either byte order. On success the record keeps
    /// the input bytes verbatim.
    pub fn from_binary(
        binary: &[u8],
        primary_text: Option<String>,
        fallback_text: Option<String>,
    ) -> (r: Result<MsbtCpp, MsbtError>)
        ensures
            ({
                let outcome = from_binary_spec(
                    binary@,
                    outcome_view(primary_text),
                    outcome_view(fallback_text),
                );
                match r {
                    Ok(m) => {
                        &&& outcome == Ok::<Seq<char>, MsbtError>(m.text@)
                        &&& m.binary@ == binary@
                        &&& m.endian == detect_endian(binary@)
                        &&& m.wf()
                    },
                    Err(e) => outcome == Err::<Seq<char>, MsbtError>(e),
                }
            }),
            binary@.len() == 0 <==> r == Err::<MsbtCpp, MsbtError>(MsbtError::EmptyInput),
            binary@.len() > 0 && detect_endian(binary@) is None <==> r == Err::<
                MsbtCpp,
                MsbtError,
            >(MsbtError::UndeterminedEndianness),
    {
        let owned: Vec<u8> = slice_to_vec(binary);
        if owned.len() == 0 {
            return Err(MsbtError::EmptyInput);
        }
        let endian = match Self::check_endianness(&owned) {
            Some(e) => e,
            None => {
                return Err(MsbtError::UndeterminedEndianness);
            },
        };
        if endian == Endian::Little {
            if let Some(t) = primary_text {
                if !t.as_str().is_empty() {
                    return Ok(MsbtCpp { text: t, binary: owned, endian: Some(endian) });
                }
            }
        }
        if let Some(t) = fallback_text {
            if !t.as_str().is_empty() {
                return Ok(MsbtCpp { text: t, binary: owned, endian: Some(endian) });
            }
        }
        Err(MsbtError::BinaryToTextFailed)
    }
}

/// An empty binary always fails with `EmptyInput`, whatever either
/// decoder produced.
pub proof fn lemma_empty_input_always_fails(
    primary: Option<Seq<char>>,
    fallback: Option<Seq<char>>,
)
    ensures
        from_binary_spec(Seq::<u8>::empty(), primary, fallback) == Err::<Seq<char>, MsbtError>(
            MsbtError::EmptyInput,
        ),
{
}

/// A non-empty binary whose byte-order mark matches neither pattern
/// always fails with `UndeterminedEndianness`, regardless of its other
/// bytes and of what either decoder produced.
pub proof fn lemma_undetermined_always_fails(
    binary: Seq<u8>,
    primary: Option<Seq<char>>,
    fallback: Option<Seq<char>>,
)
    requires
        binary.len() > 0,
        detect_endian(binary) is None,
    ensures
        from_binary_spec(binary, primary, fallback) == Err::<Seq<char>, MsbtError>(
            MsbtError::UndeterminedEndianness,
        ),
{
}

/// When the primary decoder crashed (its outcome is absent) on a
/// binary of determined byte order, the fallback decoder alone decides
/// the outcome: its non-empty text is returned, anything else fails
/// with `BinaryToTextFailed`. The fallback is never skipped.
pub proof fn lemma_fallback_decides_after_primary_crash(
    binary: Seq<u8>,
    fallback: Option<Seq<char>>,
)
    requires
        binary.len() > 0,
        detect_endian(binary) is Some,
    ensures
        usable_text(fallback) ==> from_binary_spec(binary, None::<Seq<char>>, fallback) == Ok::<
            Seq<char>,
            MsbtError,
        >(fallback.unwrap()),
        !usable_text(fallback) ==> from_binary_spec(binary, None::<Seq<char>>, fallback) == Err::<
            Seq<char>,
            MsbtError,
        >(MsbtError::BinaryToTextFailed),
{
}

/// Round trip at the arbitration level: decode a record's own binary
/// and let a decoder of the same backend family reproduce the record's
/// non-empty text `t`; the orchestrator returns exactly `t`, never a
/// substitute. For the primary family this holds of little-endian
/// binaries (its whole domain) whatever the fallback produced; for the
/// fallback family it holds of either byte order when the primary
/// produced nothing. Whether a real decoder reproduces `t` is a
/// property of the external codecs, outside this crate.
pub proof fn lemma_orchestrator_round_trip(
    t: Seq<char>,
    binary: Seq<u8>,
    other: Option<Seq<char>>,
)
    requires
        t.len() > 0,
        binary.len() > 0,
    ensures
        detect_endian(binary) == Some(Endian::Little) ==> from_binary_spec(
            binary,
            Some(t),
            other,
        ) == Ok::<Seq<char>, MsbtError>(t),
        detect_endian(binary) is Some ==> from_binary_spec(binary, None::<Seq<char>>, Some(t))
            == Ok::<Seq<char>, MsbtError>(t),
{
}

} // verus!
