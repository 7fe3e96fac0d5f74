//! The raw DEFLATE codec.

use crate::types::Codec;
use crate::types::Compression;
use flate2::read::DeflateDecoder;
use flate2::write::DeflateEncoder;
use std::io::Read;
use std::io::Write;
use vstd::prelude::*;

verus! {

/// The bytes that `flate2::read::DeflateDecoder` yields when all of `data` is read
/// through it, or `None` where the read ends in an error.
pub uninterp spec fn deflate_decoded(data: Seq<u8>) -> Option<Seq<u8>>;

/// The stream that `flate2::write::DeflateEncoder` makes of `data` at `level`, writing
/// into an empty vector, or `None` where it reports an error.
pub uninterp spec fn deflate_encoded(data: Seq<u8>, level: u32) -> Option<Seq<u8>>;

/// Runs `data` through `flate2::write::DeflateEncoder` at `level` and closes the
/// stream.
///
/// Trusted: the encoder reads nothing but `data` and `level`, and the stream
/// it makes does not depend on how its buffers are cut, so the outcome is the
/// value that `deflate_encoded` names; and a stream that comes back is one that
/// `DeflateDecoder` reads back to `data`, which is the lossless round trip the two
/// are documented to form. Nothing is claimed of when the encoder fails.
/// Levels above 9 are left out: the backend does not accept every one of
/// them.
#[verifier::external_body]
fn deflate_encode(data: &[u8], level: u32) -> (r: Result<Vec<u8>, std::io::Error>)
    requires
        level <= 9,
    ensures
        match r {
            Ok(packed) => deflate_encoded(data@, level) == Some(packed@),
            Err(_) => deflate_encoded(data@, level) is None,
        },
        r matches Ok(packed) ==> deflate_decoded(packed@) == Some(data@),
{
    let mut encoder = DeflateEncoder::new(Vec::new(), flate2::Compression::new(level));
    encoder.write_all(data)?;
    encoder.finish()
}

/// Raw DEFLATE, with no header or checksum around it, at a fixed effort level.
#[derive(Copy, Clone)]
pub struct Deflate {
    level: u32,
}

impl Deflate {
    /// The highest effort level.
    pub const MAX_LEVEL: u32 = 9;

    #[verifier::type_invariant]
    spec fn valid(self) -> bool {
        self.level <= Self::MAX_LEVEL
    }

    /// The effort level, from 0 (store only) to 9 (smallest output).
    pub closed spec fn spec_level(&self) -> u32 {
        self.level
    }

    /// A raw DEFLATE codec at `level`, which must lie in `0..=9`.
    pub fn new(level: u32) -> (r: Self)
        requires
            level <= Self::MAX_LEVEL,
        ensures
            r.level() == level,
    {
        Deflate { level }
    }

    /// The effort level this codec was made with.
    #[verifier::when_used_as_spec(spec_level)]
    pub fn level(&self) -> (r: u32)
        ensures
            r == self.spec_level(),
            r <= Self::MAX_LEVEL,
    {
        proof {
            use_type_invariant(self);
        }
        self.level
    }

    /// Two raw DEFLATE codecs with the same effort level are the same codec.
    pub proof fn lemma_level_determines(a: Deflate, b: Deflate)
        requires
            a.level() == b.level(),
        ensures
            a == b,
    {
    }
}

impl Compression for Deflate {
    open spec fn decoded(&self, data: Seq<u8>) -> Option<Seq<u8>> {
        deflate_decoded(data)
    }

    /// What comes back is what the encoder makes of `data` at the level of
    /// this codec: its stream, or its error.
    fn compress(&mut self, data: &[u8]) -> (r: Result<Vec<u8>, std::io::Error>)
        ensures
            match r {
                Ok(packed) => deflate_encoded(data@, old(self).level()) == Some(packed@),
                Err(_) => deflate_encoded(data@, old(self).level()) is None,
            },
    {
        proof {
            use_type_invariant(&*self);
        }
        deflate_encode(data, self.level)
    }

    fn decompress(&mut self, data: &[u8]) -> (r: Result<Vec<u8>, std::io::Error>) {
        deflate_decode(data)
    }

    fn clone_box(&self) -> (r: Codec)
        ensures
            r == Codec::Deflate(*self),
    {
        Codec::Deflate(*self)
    }
}

/// Reads all of `data` through `flate2::read::DeflateDecoder`.
///
/// Trusted: the outcome depends on `data` alone, so it is the value that
/// `deflate_decoded` names.
#[verifier::external_body]
fn deflate_decode(data: &[u8]) -> (r: Result<Vec<u8>, std::io::Error>)
    ensures
        match r {
            Ok(plain) => deflate_decoded(data@) == Some(plain@),
            Err(_) => deflate_decoded(data@) is None,
        },
{
    let mut decoder = DeflateDecoder::new(data);
    let mut plain = Vec::new();
    decoder.read_to_end(&mut plain)?;
    Ok(plain)
}

} // verus!
