//! The Brotli codec.

use crate::types::Codec;
use crate::types::Compression;
use brotli::enc::backward_references::BrotliEncoderMode;
use brotli::enc::BrotliEncoderParams;
use brotli::CompressorReader;
use brotli::Decompressor;
use std::io::Read;
use vstd::prelude::*;

verus! {

/// The bytes that `brotli::Decompressor` yields when all of `data` is read
/// through it with an input buffer of `buffer_size` bytes, or `None` where the
/// read ends in an error.
pub uninterp spec fn brotli_decoded(data: Seq<u8>, buffer_size: usize) -> Option<Seq<u8>>;

/// Whether `packed` is a stream that `brotli::CompressorReader` can make of
/// `data` in generic mode with the given quality, window and buffer size. It is
/// a relation and no function: the encoder's cost estimates go through the
/// platform's floating point, so two machines may pack the same input
/// differently.
pub uninterp spec fn brotli_packs(
    data: Seq<u8>,
    quality: i32,
    lgwin: i32,
    buffer_size: usize,
    packed: Seq<u8>,
) -> bool;

/// Reads `data` through `brotli::CompressorReader::with_params`, in generic
/// mode with the given quality and window and every other parameter at its
/// default.
///
/// Trusted: a stream that comes back is one that the encoder makes of `data`
/// with these settings, which is what `brotli_packs` names, and one that
/// `brotli::Decompressor`, with the same buffer size, reads back to `data`.
/// Nothing is claimed of when the encoder fails. A buffer larger than
/// `isize::MAX` cannot be allocated, and is left out.
#[verifier::external_body]
fn brotli_encode(data: &[u8], quality: i32, lgwin: i32, buffer_size: usize) -> (r: Result<
    Vec<u8>,
    std::io::Error,
>)
    requires
        1 <= quality <= 11,
        10 <= lgwin <= 24,
        buffer_size <= isize::MAX,
    ensures
        r matches Ok(packed) ==> brotli_packs(data@, quality, lgwin, buffer_size, packed@),
        r matches Ok(packed) ==> brotli_decoded(packed@, buffer_size) == Some(data@),
{
    let params = BrotliEncoderParams {
        lgwin,
        quality,
        mode: BrotliEncoderMode::BROTLI_MODE_GENERIC,
        ..Default::default()
    };
    let mut reader = CompressorReader::with_params(data, buffer_size, &params);
    let mut packed = Vec::new();
    reader.read_to_end(&mut packed)?;
    Ok(packed)
}

/// Reads all of `data` through `brotli::Decompressor::new`.
///
/// Trusted: the outcome depends on `data` and the buffer size alone, so it is
/// the value that `brotli_decoded` names. A buffer larger than `isize::MAX`
/// cannot be allocated, and is left out.
#[verifier::external_body]
fn brotli_decode(data: &[u8], buffer_size: usize) -> (r: Result<Vec<u8>, std::io::Error>)
    requires
        buffer_size <= isize::MAX,
    ensures
        match r {
            Ok(plain) => brotli_decoded(data@, buffer_size) == Some(plain@),
            Err(_) => brotli_decoded(data@, buffer_size) is None,
        },
{
    let mut reader = Decompressor::new(data, buffer_size);
    let mut plain = Vec::new();
    reader.read_to_end(&mut plain)?;
    Ok(plain)
}

/// Brotli with a fixed quality, window and input buffer.
#[derive(Copy, Clone)]
pub struct Brotli {
    quality: i32,
    lgwin: i32,
    buffer_size: usize,
}

impl Brotli {
    /// The lowest quality.
    pub const MIN_QUALITY: i32 = 1;

    /// The highest quality.
    pub const MAX_QUALITY: i32 = 11;

    /// The smallest window, as the base-2 logarithm of its size.
    pub const MIN_LGWIN: i32 = 10;

    /// The largest window, as the base-2 logarithm of its size.
    pub const MAX_LGWIN: i32 = 24;

    /// Whether the three settings make a codec.
    pub open spec fn valid_settings(quality: i32, lgwin: i32, buffer_size: usize) -> bool {
        &&& Self::MIN_QUALITY <= quality <= Self::MAX_QUALITY
        &&& Self::MIN_LGWIN <= lgwin <= Self::MAX_LGWIN
        &&& buffer_size <= isize::MAX
    }

    #[verifier::type_invariant]
    spec fn valid(self) -> bool {
        Self::valid_settings(self.quality, self.lgwin, self.buffer_size)
    }

    /// The quality, from 1 (fastest) to 11 (smallest output).
    pub closed spec fn spec_quality(&self) -> i32 {
        self.quality
    }

    /// The base-2 logarithm of the window size, from 10 to 24.
    pub closed spec fn spec_lgwin(&self) -> i32 {
        self.lgwin
    }

    /// The size in bytes of the buffer through which input is read; 0 stands
    /// for the algorithm's own default.
    pub closed spec fn spec_buffer_size(&self) -> usize {
        self.buffer_size
    }

    /// A Brotli codec with the given settings: `quality` must lie in `1..=11`
    /// and `lgwin` in `10..=24`, and `buffer_size` must be a size that a buffer
    /// can have.
    pub fn new(quality: i32, lgwin: i32, buffer_size: usize) -> (r: Self)
        requires
            Self::valid_settings(quality, lgwin, buffer_size),
        ensures
            r.quality() == quality,
            r.lgwin() == lgwin,
            r.buffer_size() == buffer_size,
    {
        Brotli { quality, lgwin, buffer_size }
    }

    /// The quality this codec was made with.
    #[verifier::when_used_as_spec(spec_quality)]
    pub fn quality(&self) -> (r: i32)
        ensures
            r == self.spec_quality(),
            Self::MIN_QUALITY <= r <= Self::MAX_QUALITY,
    {
        proof {
            use_type_invariant(self);
        }
        self.quality
    }

    /// The window setting this codec was made with.
    #[verifier::when_used_as_spec(spec_lgwin)]
    pub fn lgwin(&self) -> (r: i32)
        ensures
            r == self.spec_lgwin(),
            Self::MIN_LGWIN <= r <= Self::MAX_LGWIN,
    {
        proof {
            use_type_invariant(self);
        }
        self.lgwin
    }

    /// The buffer size this codec was made with.
    #[verifier::when_used_as_spec(spec_buffer_size)]
    pub fn buffer_size(&self) -> (r: usize)
        ensures
            r == self.spec_buffer_size(),
            r <= isize::MAX,
    {
        proof {
            use_type_invariant(self);
        }
        self.buffer_size
    }

    /// Two Brotli codecs with the same three settings are the same codec.
    pub proof fn lemma_settings_determine(a: Brotli, b: Brotli)
        requires
            a.quality() == b.quality(),
            a.lgwin() == b.lgwin(),
            a.buffer_size() == b.buffer_size(),
        ensures
            a == b,
    {
    }
}

impl Compression for Brotli {
    open spec fn decoded(&self, data: Seq<u8>) -> Option<Seq<u8>> {
        brotli_decoded(data, self.buffer_size())
    }

    /// A stream that comes back is one that the encoder makes of `data` with
    /// the quality, window and buffer size of this codec.
    fn compress(&mut self, data: &[u8]) -> (r: Result<Vec<u8>, std::io::Error>)
        ensures
            r matches Ok(packed) ==> brotli_packs(
                data@,
                old(self).quality(),
                old(self).lgwin(),
                old(self).buffer_size(),
                packed@,
            ),
    {
        proof {
            use_type_invariant(&*self);
        }
        brotli_encode(data, self.quality, self.lgwin, self.buffer_size)
    }

    fn decompress(&mut self, data: &[u8]) -> (r: Result<Vec<u8>, std::io::Error>) {
        proof {
            use_type_invariant(&*self);
        }
        brotli_decode(data, self.buffer_size)
    }

    fn clone_box(&self) -> (r: Codec)
        ensures
            r == Codec::Brotli(*self),
    {
        Codec::Brotli(*self)
    }
}

} // verus!
