//! Algorithm selection and dispatch: an [`Algorithms`] tag picks one of the
//! supported formats, and one invocation routes a buffered input through the
//! matching encoder or decoder.

use vstd::prelude::*;

use crate::codec;
use crate::codec::CodecError;

verus! {

/// The compression formats the tool supports.
#[derive(Clone, Copy, Debug, PartialEq, Eq, Structural)]
pub enum Algorithms {
    GZIP,
    ZLIB,
    DEFLATE,
}

/// Whether an invocation compresses fresh bytes or decompresses an existing
/// payload.
#[derive(Clone, Copy, Debug, PartialEq, Eq, Structural)]
pub enum Mode {
    Compress,
    Decompress,
}

/// The stream that compressing `data` with algorithm `a` at the default
/// settings produces.
pub open spec fn compressed_of(a: Algorithms, data: Seq<u8>) -> Seq<u8> {
    match a {
        Algorithms::GZIP => codec::gzip_compressed(data),
        Algorithms::ZLIB => codec::zlib_compressed(data),
        Algorithms::DEFLATE => codec::deflate_compressed(data),
    }
}

/// What decompressing `payload` with algorithm `a` yields: the recovered
/// bytes where the payload is a well-formed stream of that format, `None`
/// where the decoder rejects it.
pub open spec fn decompressed_of(a: Algorithms, payload: Seq<u8>) -> Option<Seq<u8>> {
    match a {
        Algorithms::GZIP => codec::gzip_decompressed(payload),
        Algorithms::ZLIB => codec::zlib_decompressed(payload),
        Algorithms::DEFLATE => codec::deflate_decompressed(payload),
    }
}

/// What one invocation of the tool computes: algorithm `a` in mode `m` maps
/// the buffered input `data` to the output bytes. Compression is defined on
/// every input; decompression only on well-formed payloads.
pub open spec fn transformed_of(a: Algorithms, m: Mode, data: Seq<u8>) -> Option<Seq<u8>> {
    match m {
        Mode::Compress => Some(compressed_of(a, data)),
        Mode::Decompress => decompressed_of(a, data),
    }
}

impl Algorithms {
    /// Compress `buf` with this algorithm at the default compression level.
    /// The call always succeeds — the codec writes into an in-memory buffer —
    /// and the result is exactly the stream of this format for `buf`;
    /// decompressing it with the same algorithm gives `buf` back.
    pub fn compress(&self, buf: &[u8]) -> (r: Result<Vec<u8>, CodecError>)
        ensures
            r is Ok,
            r matches Ok(v) ==> v@ == compressed_of(*self, buf@)
                && decompressed_of(*self, v@) == Some(buf@),
            r matches Ok(v) ==> (*self is GZIP ==> codec::has_gzip_magic(v@)) && (*self is ZLIB
                ==> codec::has_zlib_header(v@)),
    {
        match self {
            Algorithms::GZIP => codec::gzip_compress(buf),
            Algorithms::ZLIB => codec::zlib_compress(buf),
            Algorithms::DEFLATE => codec::deflate_compress(buf),
        }
    }

    /// Decompress `buf`, taken as a complete payload of this algorithm's
    /// format. Succeeds with the recovered bytes exactly where the payload is
    /// one the format's decoder accepts — a malformed, truncated or empty
    /// payload gives `CodecError::Decode`, never wrong bytes.
    pub fn decompress(&self, buf: &[u8]) -> (r: Result<Vec<u8>, CodecError>)
        ensures
            r matches Ok(v) ==> decompressed_of(*self, buf@) == Some(v@),
            r is Err ==> decompressed_of(*self, buf@) is None,
            *self is GZIP && !codec::has_gzip_magic(buf@) ==> r is Err,
            *self is ZLIB && !codec::has_zlib_header(buf@) ==> r is Err,
            buf@.len() == 0 ==> r is Err,
            r matches Err(e) ==> e is Decode,
    {
        match self {
            Algorithms::GZIP => codec::gzip_decompress(buf),
            Algorithms::ZLIB => codec::zlib_decompress(buf),
            Algorithms::DEFLATE => codec::deflate_decompress(buf),
        }
    }

    /// The dispatcher of one invocation: route the buffered input through
    /// this algorithm's encoder or decoder, as `mode` selects. Compression
    /// always succeeds; on success the output is exactly what the mode's
    /// transformation yields for the input, and decompression fails exactly
    /// on payloads the format's decoder rejects.
    pub fn run(&self, mode: Mode, buf: &[u8]) -> (r: Result<Vec<u8>, CodecError>)
        ensures
            mode is Compress ==> r is Ok,
            r matches Ok(v) ==> transformed_of(*self, mode, buf@) == Some(v@),
            r is Err ==> mode is Decompress && transformed_of(*self, mode, buf@) is None,
            r matches Err(e) ==> e is Decode,
    {
        match mode {
            Mode::Compress => self.compress(buf),
            Mode::Decompress => self.decompress(buf),
        }
    }

    /// The flag name of this algorithm, as the command line selects it.
    pub fn name(&self) -> (r: &'static str)
        ensures
            *self is GZIP ==> r@ == "gzip"@,
            *self is ZLIB ==> r@ == "zlib"@,
            *self is DEFLATE ==> r@ == "deflate"@,
    {
        match self {
            Algorithms::GZIP => "gzip",
            Algorithms::ZLIB => "zlib",
            Algorithms::DEFLATE => "deflate",
        }
    }
}

impl CodecError {
    /// A diagnostic line for this failure, for the caller to print before it
    /// aborts the invocation.
    pub fn message(&self) -> (r: &'static str)
        ensures
            *self is Encode ==> r@ == "failed to compress the input stream"@,
            *self is Decode ==> r@ == "input is not a valid compressed stream"@,
    {
        match self {
            CodecError::Encode => "failed to compress the input stream",
            CodecError::Decode => "input is not a valid compressed stream",
        }
    }
}

/// Round-trip law: compressing any input with algorithm `a` and decompressing
/// the payload with the same algorithm always succeeds and yields exactly the
/// original input, whatever the input bytes (the empty input included).
pub fn compress_then_decompress(a: &Algorithms, input: &[u8]) -> (r: Result<Vec<u8>, CodecError>)
    ensures
        r is Ok,
        r matches Ok(v) ==> v@ == input@,
{
    match a.compress(input) {
        Ok(payload) => a.decompress(payload.as_slice()),
        Err(e) => Err(e),
    }
}

/// Cross-format law, in one of the two directions the stream headers decide:
/// the payload the zlib encoder produces is never accepted by the gzip
/// decoder, whatever the input bytes — its first byte carries the deflate
/// method and so cannot be the first gzip magic byte. The composition always
/// fails with the decoder's rejection.
pub fn zlib_payload_never_decompresses_as_gzip(input: &[u8]) -> (r: Result<Vec<u8>, CodecError>)
    ensures
        r is Err,
        r matches Err(e) ==> e is Decode,
        decompressed_of(Algorithms::GZIP, compressed_of(Algorithms::ZLIB, input@)) is None,
{
    match Algorithms::ZLIB.compress(input) {
        Ok(payload) => {
            let ghost first: u8 = payload@[0];
            proof {
                assert(first & 0x0f == 8 ==> first != 0x1f) by (bit_vector);
            }
            Algorithms::GZIP.decompress(payload.as_slice())
        },
        Err(e) => Err(e),
    }
}

/// Cross-format law, in the other header-decided direction: the payload the
/// gzip encoder produces is never accepted by the zlib decoder, whatever the
/// input bytes — the first gzip magic byte does not carry the deflate method
/// a zlib header demands. The composition always fails with the decoder's
/// rejection.
pub fn gzip_payload_never_decompresses_as_zlib(input: &[u8]) -> (r: Result<Vec<u8>, CodecError>)
    ensures
        r is Err,
        r matches Err(e) ==> e is Decode,
        decompressed_of(Algorithms::ZLIB, compressed_of(Algorithms::GZIP, input@)) is None,
{
    match Algorithms::GZIP.compress(input) {
        Ok(payload) => {
            let ghost first: u8 = payload@[0];
            proof {
                assert(first == 0x1f ==> first & 0x0f != 8) by (bit_vector);
            }
            Algorithms::ZLIB.decompress(payload.as_slice())
        },
        Err(e) => Err(e),
    }
}

/// Determinism law: what `compress` returns is a function of the algorithm
/// and the input bytes alone, so compressing equal inputs with the same
/// algorithm and the default settings yields byte-identical payloads.
pub proof fn lemma_compress_deterministic(a: Algorithms, data1: Seq<u8>, data2: Seq<u8>)
    requires
        data1 == data2,
    ensures
        compressed_of(a, data1) == compressed_of(a, data2),
{
}

} // verus!
