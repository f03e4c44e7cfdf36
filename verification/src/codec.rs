//! The trusted boundary around the `flate2` codecs.
//!
//! Each supported format gets two names: the stream its encoder produces from
//! given input bytes, and the partial inverse its decoder computes from a
//! payload. The wrappers below run a whole buffer through the corresponding
//! `flate2` codec — the encoders write into an in-memory buffer, the decoders
//! read the payload to its end — and relate their results to those names;
//! everything above this module is verified against these contracts.

use vstd::prelude::*;

use flate2::read::DeflateDecoder;
use flate2::read::GzDecoder;
use flate2::read::ZlibDecoder;
use flate2::write::DeflateEncoder;
use flate2::write::GzEncoder;
use flate2::write::ZlibEncoder;
use flate2::Compression;
use std::io::Read;
use std::io::Write;

verus! {

/// How a codec run can fail: the compression backend refused to encode, or
/// the payload handed to a decoder was not a well-formed stream of the
/// selected format.
#[derive(Clone, Copy, Debug, PartialEq, Eq, Structural)]
pub enum CodecError {
    Encode,
    Decode,
}

/// The gzip stream that `flate2`'s encoder produces at the default level from
/// the given input bytes.
pub uninterp spec fn gzip_compressed(data: Seq<u8>) -> Seq<u8>;

/// The two magic bytes every gzip stream begins with.
pub open spec fn has_gzip_magic(p: Seq<u8>) -> bool {
    p.len() >= 2 && p[0] == 0x1f && p[1] == 0x8b
}

/// The two-byte zlib header, whose first byte names the deflate compression
/// method (8) in its low four bits.
pub open spec fn has_zlib_header(p: Seq<u8>) -> bool {
    p.len() >= 2 && p[0] & 0x0f == 8
}

/// What `flate2`'s gzip decoder makes of a payload: the recovered bytes where
/// the payload is a stream it accepts, `None` where it rejects it.
pub uninterp spec fn gzip_decompressed(payload: Seq<u8>) -> Option<Seq<u8>>;

/// Relies on `flate2::write::GzEncoder` at the default compression level: the
/// produced stream depends on the input bytes alone (the header it writes is
/// fixed: zero mtime, operating-system byte 255) and opens with the magic
/// bytes `0x1f 0x8b`; feeding it back through the gzip decoder recovers the
/// input. Writing into an in-memory buffer cannot fail, so the call always
/// succeeds.
#[verifier::external_body]
pub(crate) fn gzip_compress(buf: &[u8]) -> (r: Result<Vec<u8>, CodecError>)
    ensures
        r is Ok,
        r matches Ok(v) ==> v@ == gzip_compressed(buf@) && gzip_decompressed(v@) == Some(buf@),
        r matches Ok(v) ==> has_gzip_magic(v@),
{
    let mut enc = GzEncoder::new(Vec::new(), Compression::default());
    if enc.write_all(buf).is_err() {
        return Err(CodecError::Encode);
    }
    match enc.finish() {
        Ok(v) => Ok(v),
        Err(_) => Err(CodecError::Encode),
    }
}

/// Relies on `flate2::read::GzDecoder`: reading the whole payload to its end
/// succeeds exactly on the payloads the decoder accepts — it demands the
/// magic bytes, a complete deflate stream and the full eight-byte trailer
/// with matching CRC-32 and length — and yields the bytes the stream encodes;
/// the result depends on the payload alone. A payload that does not open with
/// the magic bytes is always rejected.
#[verifier::external_body]
pub(crate) fn gzip_decompress(buf: &[u8]) -> (r: Result<Vec<u8>, CodecError>)
    ensures
        r matches Ok(v) ==> gzip_decompressed(buf@) == Some(v@),
        r is Err ==> gzip_decompressed(buf@) is None,
        !has_gzip_magic(buf@) ==> r is Err,
        r matches Err(e) ==> e is Decode,
{
    let mut dec = GzDecoder::new(buf);
    let mut out = Vec::new();
    match dec.read_to_end(&mut out) {
        Ok(_) => Ok(out),
        Err(_) => Err(CodecError::Decode),
    }
}

/// The zlib stream that `flate2`'s encoder produces at the default level from
/// the given input bytes.
pub uninterp spec fn zlib_compressed(data: Seq<u8>) -> Seq<u8>;

/// What `flate2`'s zlib decoder makes of a payload: the recovered bytes where
/// the payload is a stream it accepts, `None` where it rejects it.
pub uninterp spec fn zlib_decompressed(payload: Seq<u8>) -> Option<Seq<u8>>;

/// The raw deflate stream that `flate2`'s encoder produces at the default
/// level from the given input bytes.
pub uninterp spec fn deflate_compressed(data: Seq<u8>) -> Seq<u8>;

/// What `flate2`'s raw deflate decoder makes of a payload: the recovered
/// bytes where the payload is a stream it accepts, `None` where it rejects
/// it.
pub uninterp spec fn deflate_decompressed(payload: Seq<u8>) -> Option<Seq<u8>>;

/// Relies on `flate2::write::ZlibEncoder` at the default compression level:
/// the produced stream (zlib header, deflate data, Adler-32 trailer) depends
/// on the input bytes alone and opens with a header byte carrying method 8;
/// feeding it back through the zlib decoder recovers the input. Writing into
/// an in-memory buffer cannot fail, so the call always succeeds.
#[verifier::external_body]
pub(crate) fn zlib_compress(buf: &[u8]) -> (r: Result<Vec<u8>, CodecError>)
    ensures
        r is Ok,
        r matches Ok(v) ==> v@ == zlib_compressed(buf@) && zlib_decompressed(v@) == Some(buf@),
        r matches Ok(v) ==> has_zlib_header(v@),
{
    let mut enc = ZlibEncoder::new(Vec::new(), Compression::default());
    if enc.write_all(buf).is_err() {
        return Err(CodecError::Encode);
    }
    match enc.finish() {
        Ok(v) => Ok(v),
        Err(_) => Err(CodecError::Encode),
    }
}

/// Relies on `flate2::read::ZlibDecoder`: reading the whole payload to its
/// end succeeds exactly on the payloads the decoder accepts — it demands a
/// valid zlib header, a complete deflate stream and a matching Adler-32
/// trailer, so a truncated or empty payload is refused — and yields the bytes
/// the stream encodes; the result depends on the payload alone. A payload
/// without the two header bytes, or whose first byte does not name method 8,
/// is always rejected.
#[verifier::external_body]
pub(crate) fn zlib_decompress(buf: &[u8]) -> (r: Result<Vec<u8>, CodecError>)
    ensures
        r matches Ok(v) ==> zlib_decompressed(buf@) == Some(v@),
        r is Err ==> zlib_decompressed(buf@) is None,
        !has_zlib_header(buf@) ==> r is Err,
        r matches Err(e) ==> e is Decode,
{
    let mut dec = ZlibDecoder::new(buf);
    let mut out = Vec::new();
    match dec.read_to_end(&mut out) {
        Ok(_) => Ok(out),
        Err(_) => Err(CodecError::Decode),
    }
}

/// Relies on `flate2::write::DeflateEncoder` at the default compression
/// level: the produced raw deflate stream depends on the input bytes alone;
/// feeding it back through the deflate decoder recovers the input. Writing
/// into an in-memory buffer cannot fail, so the call always succeeds.
#[verifier::external_body]
pub(crate) fn deflate_compress(buf: &[u8]) -> (r: Result<Vec<u8>, CodecError>)
    ensures
        r is Ok,
        r matches Ok(v) ==> v@ == deflate_compressed(buf@)
            && deflate_decompressed(v@) == Some(buf@),
{
    let mut enc = DeflateEncoder::new(Vec::new(), Compression::default());
    if enc.write_all(buf).is_err() {
        return Err(CodecError::Encode);
    }
    match enc.finish() {
        Ok(v) => Ok(v),
        Err(_) => Err(CodecError::Encode),
    }
}

/// Relies on `flate2::read::DeflateDecoder`: reading the whole payload to its
/// end succeeds exactly on the payloads the decoder accepts — a malformed or
/// incomplete deflate stream is refused, the empty payload among them — and
/// yields the bytes the stream encodes; the result depends on the payload
/// alone.
#[verifier::external_body]
pub(crate) fn deflate_decompress(buf: &[u8]) -> (r: Result<Vec<u8>, CodecError>)
    ensures
        r matches Ok(v) ==> deflate_decompressed(buf@) == Some(v@),
        r is Err ==> deflate_decompressed(buf@) is None,
        buf@.len() == 0 ==> r is Err,
        r matches Err(e) ==> e is Decode,
{
    let mut dec = DeflateDecoder::new(buf);
    let mut out = Vec::new();
    match dec.read_to_end(&mut out) {
        Ok(_) => Ok(out),
        Err(_) => Err(CodecError::Decode),
    }
}

} // verus!
