//! Lossy text decoding of captured byte streams.

use vstd::prelude::*;
use vstd::utf8::{decode_utf8, valid_utf8};

verus! {

/// The text that lossy UTF-8 decoding yields for a byte sequence: the
/// decoded characters, with each maximal ill-formed byte sequence
/// replaced by a replacement marker. The result depends on the bytes
/// alone; on valid UTF-8 it agrees with [`decode_utf8`], as the contract
/// of [`decode_lossy`] states.
pub uninterp spec fn decoded(bytes: Seq<u8>) -> Seq<char>;

/// Relies on `String::from_utf8_lossy`: the result is a function of the
/// bytes alone, valid UTF-8 is decoded as-is, and ill-formed sequences
/// are replaced rather than rejected, so decoding never fails.
#[verifier::external_body]
pub(crate) fn decode_lossy(bytes: &Vec<u8>) -> (r: String)
    ensures
        r@ == decoded(bytes@),
        valid_utf8(bytes@) ==> r@ == decode_utf8(bytes@),
{
    String::from_utf8_lossy(bytes).into_owned()
}

/// An empty byte stream holds no scalars and no ill-formed sequences,
/// so it is valid UTF-8 and decodes to empty text.
pub proof fn lemma_decode_utf8_empty(bytes: Seq<u8>)
    requires
        bytes.len() == 0,
    ensures
        valid_utf8(bytes),
        decode_utf8(bytes).len() == 0,
{
}

} // verus!
