//! The thumbnail reader's decisions: how many bytes to ask a stream for, and
//! what text a completed read becomes. Reading the stream itself is the
//! driver's work.

use vstd::prelude::*;
use crate::encoding::{encode, encoding_of, standard_base64, encodable};

verus! {

/// The one failure of the thumbnail reader: no thumbnail is available. An empty
/// stream, a read that could not be set up, one that failed and one that came
/// back short are not told apart.
#[derive(Clone, Copy, Debug, PartialEq, Eq, Structural)]
pub struct NoThumbnail;

/// The largest number of bytes that a single read request can carry.
pub const MAX_READ: u64 = 0xffff_ffff;

/// The length to request for a stream that declares `raw_size` bytes: the
/// declared size itself, or nothing where the stream is empty or holds more
/// than one request can deliver. A cover is never made from part of a stream.
pub open spec fn request_of(raw_size: u64) -> Option<u32> {
    if 0 < raw_size <= MAX_READ {
        Some(raw_size as u32)
    } else {
        None
    }
}

/// The payload of a finished read: the base64 text of the bytes where the
/// declared size is positive and the read is complete, nothing otherwise.
pub open spec fn payload_of(declared_size: u32, bytes: Seq<u8>) -> Option<Seq<char>> {
    if declared_size > 0 && bytes.len() == declared_size {
        encoding_of(bytes)
    } else {
        None
    }
}

/// What every cover starts with.
pub open spec fn cover_prefix() -> Seq<char> {
    "data:image/png;base64,"@
}

/// The cover that carries `payload`: a data URI for a PNG image.
pub open spec fn cover_text(payload: Seq<char>) -> Seq<char> {
    cover_prefix() + payload
}

/// The cover that a finished read gives, if any.
pub open spec fn cover_of(declared_size: u32, bytes: Seq<u8>) -> Option<Seq<char>> {
    match payload_of(declared_size, bytes) {
        Some(payload) => Some(cover_text(payload)),
        None => None,
    }
}

/// The number of bytes to request from a stream of the given declared size.
/// A stream that declares no bytes has no thumbnail, nor has one that declares
/// more than a single request can carry.
pub fn read_length(raw_size: u64) -> (request: Result<u32, NoThumbnail>)
    ensures
        match request {
            Ok(len) => request_of(raw_size) == Some(len),
            Err(_) => request_of(raw_size).is_none(),
        },
{
    if raw_size == 0 || raw_size > MAX_READ {
        Err(NoThumbnail)
    } else {
        Ok(raw_size as u32)
    }
}

/// Turns the bytes of a finished read into base64 text. Fails where the
/// declared size is zero, where the read did not deliver exactly the declared
/// number of bytes, and where the text would be too long to hold.
pub fn read_thumbnail(declared_size: u32, bytes: &[u8]) -> (payload: Result<String, NoThumbnail>)
    ensures
        match payload {
            Ok(text) => payload_of(declared_size, bytes@) == Some(text@),
            Err(_) => payload_of(declared_size, bytes@).is_none(),
        },
{
    if declared_size == 0 || bytes.len() != declared_size as usize {
        return Err(NoThumbnail);
    }
    match encode(bytes) {
        Some(text) => Ok(text),
        None => Err(NoThumbnail),
    }
}

/// Wraps a base64 payload as a cover.
pub fn cover_uri(payload: &str) -> (uri: String)
    ensures
        uri@ == cover_text(payload@),
{
    "data:image/png;base64,".to_string().concat(payload)
}

/// The cover for a finished read, or `None` where the reader fails: a cover is
/// whole or absent.
pub fn read_cover(declared_size: u32, bytes: &[u8]) -> (cover: Option<String>)
    ensures
        cover.deep_view() == cover_of(declared_size, bytes@),
{
    match read_thumbnail(declared_size, bytes) {
        Ok(payload) => Some(cover_uri(payload.as_str())),
        Err(_) => None,
    }
}

/// A read of a positive declared size that delivered every byte, and whose
/// text fits, gives the prefix followed by the encoding of exactly those bytes;
/// a declared size of zero gives no cover whatever was read.
pub proof fn lemma_cover_of_read(declared_size: u32, bytes: Seq<u8>)
    ensures
        declared_size == 0 ==> cover_of(declared_size, bytes).is_none(),
        bytes.len() != declared_size ==> cover_of(declared_size, bytes).is_none(),
        declared_size > 0 && bytes.len() == declared_size && encodable(bytes.len()) ==> cover_of(
            declared_size,
            bytes,
        ) == Some(cover_prefix() + standard_base64(bytes)),
{
}

} // verus!
