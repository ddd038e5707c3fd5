//! Binary-to-text encoding of directory photos.
use vstd::prelude::*;

verus! {

/// The padded base64 text, in the standard alphabet, of `bytes`.
pub uninterp spec fn base64_standard(bytes: Seq<u8>) -> Seq<char>;

/// Whether the base64 text of `len` bytes has a length that fits the machine.
pub open spec fn encodable(len: nat) -> bool {
    4 * ((len + 2) / 3) <= usize::MAX
}

/// Calls `Engine::encode` of the `base64` crate on its `STANDARD` engine.
/// The crate computes the text from the bytes alone; it panics only where
/// the padded length, four characters for every three bytes begun, does not
/// fit in `usize`, which the precondition leaves out.
#[verifier::external_body]
pub(crate) fn encode_standard(bytes: &Vec<u8>) -> (text: String)
    requires
        encodable(bytes@.len()),
    ensures
        text@ == base64_standard(bytes@),
{
    base64::Engine::encode(&base64::engine::general_purpose::STANDARD, bytes)
}

/// Whether `encode_standard` accepts `len` bytes.
pub(crate) fn fits(len: usize) -> (ok: bool)
    ensures
        ok == encodable(len as nat),
{
    let whole: usize = len / 3;
    let groups: usize = if len % 3 == 0 {
        whole
    } else {
        whole + 1
    };
    groups <= usize::MAX / 4
}

} // verus!
