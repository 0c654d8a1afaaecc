use crate::error::Error;
use vstd::prelude::*;
use vstd::utf8::{
    decode_first_codepoint, decode_utf8, is_ascii_chars, is_leading_byte_width_1,
    length_of_first_scalar, pop_first_scalar, valid_first_scalar, valid_utf8,
};

verus! {

/// True of byte sequences that hold only ASCII bytes.
pub open spec fn is_ascii_bytes(bytes: Seq<u8>) -> bool {
    forall|i: int| 0 <= i < bytes.len() ==> bytes[i] < 0x80
}

/// Text recovered from ASCII bytes is ASCII again, character for character:
/// such bytes are always valid UTF-8 and decode to exactly one character per
/// byte. So whenever the native side delivers non-empty ASCII bytes — as a
/// store URI is — the decoded string is non-empty and all-ASCII.
pub proof fn lemma_ascii_bytes_decode(bytes: Seq<u8>)
    requires
        is_ascii_bytes(bytes),
    ensures
        valid_utf8(bytes),
        decode_utf8(bytes).len() == bytes.len(),
        is_ascii_chars(decode_utf8(bytes)),
    decreases bytes.len(),
{
    if bytes.len() > 0 {
        let b0 = bytes[0];
        assert(b0 & 0x7f == b0) by (bit_vector)
            requires
                b0 < 0x80,
        ;
        assert(is_leading_byte_width_1(b0));
        assert(decode_first_codepoint(bytes) == b0 as u32);
        assert(valid_first_scalar(bytes));
        assert(length_of_first_scalar(bytes) == 1);
        let rest = pop_first_scalar(bytes);
        assert(rest =~= bytes.subrange(1, bytes.len() as int));
        lemma_ascii_bytes_decode(rest);
        assert(decode_utf8(bytes) =~= seq![(b0 as u32) as char] + decode_utf8(rest));
    }
}

/// Relies on std's str::from_utf8: it succeeds exactly when the bytes are
/// valid UTF-8, and the returned text is the decoding of those bytes.
#[verifier::external_body]
fn utf8_to_str(bytes: &[u8]) -> (r: Result<&str, ()>)
    ensures
        r is Ok <==> valid_utf8(bytes@),
        r matches Ok(s) ==> s@ == decode_utf8(bytes@),
{
    match core::str::from_utf8(bytes) {
        Ok(s) => Ok(s),
        Err(_) => Err(()),
    }
}

/// Decode bytes recovered from the native side as owned text. An invalid
/// encoding is a propagated error, never a crash.
pub fn decode_text(bytes: &[u8]) -> (r: Result<String, Error>)
    ensures
        r is Ok <==> valid_utf8(bytes@),
        r matches Ok(s) ==> s@ == decode_utf8(bytes@),
        r matches Err(e) ==> e == Error::TextDecoding,
{
    match utf8_to_str(bytes) {
        Ok(s) => Ok(s.to_owned()),
        Err(()) => Err(Error::TextDecoding),
    }
}

} // verus!
