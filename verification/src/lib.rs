//! A small compression library: the dispatch core of a command-line tool that
//! pipes a buffered byte stream through gzip, zlib or raw deflate.
//!
//! The bit-level codecs come from the `flate2` crate and are reached through
//! the trusted boundary in [`codec`]; the algorithm selection, the dispatch
//! over compress/decompress mode and the round-trip and determinism laws live
//! in [`algo`] and are verified.

pub mod algo;
pub mod codec;
