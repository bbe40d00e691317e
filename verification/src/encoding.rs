//! Base64 text for thumbnail bytes. The encoding itself is the `base64`
//! crate's; this module names its result and guards the one input on which
//! the encoder does not return.

use vstd::prelude::*;

verus! {

/// The text that the `base64` crate's standard engine (the alphabet of
/// RFC 4648, with `=` padding) gives for a byte sequence.
pub uninterp spec fn standard_base64(bytes: Seq<u8>) -> Seq<char>;

/// The number of characters in the padded encoding of `len` bytes: four for
/// every whole group of three, and four more for what is left over.
pub open spec fn encoded_len(len: nat) -> nat {
    4 * (len / 3) + if len % 3 > 0 {
        4nat
    } else {
        0nat
    }
}

/// Whether the encoding of `len` bytes has a length that `usize` can hold.
/// The encoder computes that length first and gives up where it overflows.
pub open spec fn encodable(len: nat) -> bool {
    encoded_len(len) <= usize::MAX
}

/// What encoding yields: the named text where the bytes can be encoded,
/// nothing where they cannot.
pub open spec fn encoding_of(bytes: Seq<u8>) -> Option<Seq<char>> {
    if encodable(bytes.len()) {
        Some(standard_base64(bytes))
    } else {
        None
    }
}

/// Calls `base64::Engine::encode` on `base64::engine::general_purpose::STANDARD`.
///
/// Trusted, not proved: the returned text is the crate's standard padded
/// encoding of exactly these bytes, named [`standard_base64`]. The crate
/// panics where the encoded length overflows `usize`, so such inputs are
/// excluded.
#[verifier::external_body]
fn encode_standard(bytes: &[u8]) -> (text: String)
    requires
        encodable(bytes@.len()),
    ensures
        text@ == standard_base64(bytes@),
{
    base64::Engine::encode(&base64::engine::general_purpose::STANDARD, bytes)
}

/// Decides at run time whether `len` bytes can be encoded.
pub fn can_encode(len: usize) -> (fits: bool)
    ensures
        fits == encodable(len as nat),
{
    let groups: usize = len / 3;
    if len % 3 == 0 {
        groups <= usize::MAX / 4
    } else {
        groups < usize::MAX / 4
    }
}

/// Encodes `bytes` as standard padded base64, or returns `None` where the
/// text would be longer than `usize` can count.
pub fn encode(bytes: &[u8]) -> (text: Option<String>)
    ensures
        text.deep_view() == encoding_of(bytes@),
{
    if can_encode(bytes.len()) {
        Some(encode_standard(bytes))
    } else {
        None
    }
}

} // verus!
