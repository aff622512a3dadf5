//! Base64 text of byte strings, through the `base64` crate's standard engine.
use base64::Engine;
use vstd::prelude::*;

verus! {

/// The text that the standard base64 engine (standard alphabet, with padding)
/// gives for a byte string.
pub uninterp spec fn base64_encoded(bytes: Seq<u8>) -> Seq<char>;

/// What the standard base64 engine (canonical padding required, no trailing
/// bits allowed) decodes a text into, or `None` where it refuses the text.
pub uninterp spec fn base64_decoded(text: Seq<char>) -> Option<Seq<u8>>;

/// The length of the padded base64 text of `n` bytes.
pub open spec fn base64_len(n: nat) -> nat {
    4 * ((n + 2) / 3)
}

/// Calls `base64::engine::general_purpose::STANDARD.encode`. Its result is
/// named by `base64_encoded`; the source sizes its output as `base64_len` and
/// the engine decodes its own output back to the input bytes. The source
/// panics when that length overflows `usize`, which `requires` leaves out.
#[verifier::external_body]
pub(crate) fn encode_standard(bytes: &[u8]) -> (res: String)
    requires
        base64_len(bytes@.len()) <= usize::MAX,
    ensures
        res@ == base64_encoded(bytes@),
        res@.len() == base64_len(bytes@.len()),
        base64_decoded(res@) == Some(bytes@),
{
    base64::engine::general_purpose::STANDARD.encode(bytes)
}

/// Calls `base64::engine::general_purpose::STANDARD.decode` on the bytes of
/// `text`; an error of the crate becomes `None`. The result is named by
/// `base64_decoded`.
#[verifier::external_body]
pub(crate) fn decode_standard(text: &str) -> (res: Option<Vec<u8>>)
    ensures
        match res {
            Some(bytes) => base64_decoded(text@) == Some(bytes@),
            None => base64_decoded(text@) is None,
        },
{
    base64::engine::general_purpose::STANDARD.decode(text).ok()
}

} // verus!
