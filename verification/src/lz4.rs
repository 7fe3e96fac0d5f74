//! The LZ4 codec, in its frame format.

use crate::types::Codec;
use crate::types::Compression;
use std::io::Read;
use std::io::Write;
use vstd::prelude::*;

verus! {

/// The bytes that `lz4::Decoder` yields when all of `data` is read through it,
/// or `None` where the read ends in an error.
pub uninterp spec fn lz4_decoded(data: Seq<u8>) -> Option<Seq<u8>>;

/// Whether `packed` is a frame that `lz4::Encoder` can make of `data` at
/// `level`. It is a relation and no function: the underlying library hashes by
/// the width of a machine word and reads in the machine's byte order, so two
/// machines may pack the same input differently.
pub uninterp spec fn lz4_packs(data: Seq<u8>, level: u32, packed: Seq<u8>) -> bool;

/// Builds an `lz4::Encoder` at `level` with `lz4::EncoderBuilder`, writes
/// `data` to it and finishes the frame.
///
/// Trusted: a frame that comes back was finished without error, is one that
/// the encoder makes of `data` at `level`, which is what `lz4_packs` names, and
/// reads back to `data` through `lz4::Decoder`. Of failure nothing is claimed.
#[verifier::external_body]
fn lz4_encode(data: &[u8], level: u32) -> (r: Result<Vec<u8>, std::io::Error>)
    requires
        level <= 16,
    ensures
        r matches Ok(packed) ==> lz4_packs(data@, level, packed@),
        r matches Ok(packed) ==> lz4_decoded(packed@) == Some(data@),
{
    let mut encoder = ::lz4::EncoderBuilder::new().level(level).build(Vec::new())?;
    encoder.write_all(data)?;
    let (packed, finished) = encoder.finish();
    finished?;
    Ok(packed)
}

/// Reads all of `data` through a new `lz4::Decoder`.
///
/// Trusted: the outcome depends on `data` alone, so it is the value that
/// `lz4_decoded` names.
#[verifier::external_body]
fn lz4_decode(data: &[u8]) -> (r: Result<Vec<u8>, std::io::Error>)
    ensures
        match r {
            Ok(plain) => lz4_decoded(data@) == Some(plain@),
            Err(_) => lz4_decoded(data@) is None,
        },
{
    let mut decoder = ::lz4::Decoder::new(data)?;
    let mut plain = Vec::new();
    decoder.read_to_end(&mut plain)?;
    Ok(plain)
}

/// LZ4 at a fixed effort level.
#[derive(Copy, Clone)]
pub struct Lz4 {
    level: u32,
}

impl Lz4 {
    /// The highest effort level.
    pub const MAX_LEVEL: u32 = 16;

    #[verifier::type_invariant]
    spec fn valid(self) -> bool {
        self.level <= Self::MAX_LEVEL
    }

    /// The effort level, from 0 (fastest) to 16 (smallest output).
    pub closed spec fn spec_level(&self) -> u32 {
        self.level
    }

    /// An LZ4 codec at `level`, which must lie in `0..=16`.
    pub fn new(level: u32) -> (r: Self)
        requires
            level <= Self::MAX_LEVEL,
        ensures
            r.level() == level,
    {
        Lz4 { level }
    }

    /// The effort level this codec was made with.
    #[verifier::when_used_as_spec(spec_level)]
    pub fn level(&self) -> (r: u32)
        ensures
            r == self.spec_level(),
            r <= Self::MAX_LEVEL,
    {
        proof {
            use_type_invariant(self);
        }
        self.level
    }

    /// Two LZ4 codecs with the same effort level are the same codec.
    pub proof fn lemma_level_determines(a: Lz4, b: Lz4)
        requires
            a.level() == b.level(),
        ensures
            a == b,
    {
    }
}

impl Compression for Lz4 {
    open spec fn decoded(&self, data: Seq<u8>) -> Option<Seq<u8>> {
        lz4_decoded(data)
    }

    /// A frame that comes back is one that the encoder makes of `data` at the
    /// level of this codec.
    fn compress(&mut self, data: &[u8]) -> (r: Result<Vec<u8>, std::io::Error>)
        ensures
            r matches Ok(packed) ==> lz4_packs(data@, old(self).level(), packed@),
    {
        proof {
            use_type_invariant(&*self);
        }
        lz4_encode(data, self.level)
    }

    fn decompress(&mut self, data: &[u8]) -> (r: Result<Vec<u8>, std::io::Error>) {
        lz4_decode(data)
    }

    fn clone_box(&self) -> (r: Codec)
        ensures
            r == Codec::Lz4(*self),
    {
        Codec::Lz4(*self)
    }
}

} // verus!
