//! The Snappy codec, in its raw (unframed) format.

use crate::types::Codec;
use crate::types::Compression;
use vstd::prelude::*;

verus! {

/// The bytes that `snap::raw::Decoder::decompress_vec` returns for `data`, or
/// `None` where it returns an error.
pub uninterp spec fn snap_decoded(data: Seq<u8>) -> Option<Seq<u8>>;

/// Whether an input of `len` bytes is within what the raw format can hold: the
/// largest size the packed form may take, `32 + len + len / 6`, has to fit in
/// 32 bits.
pub open spec fn snap_accepts(len: nat) -> bool {
    32 + len + len / 6 <= u32::MAX
}

/// The stream that `snap::raw::Encoder::compress_vec` returns for `data`, or
/// `None` where it returns an error.
pub uninterp spec fn snap_encoded(data: Seq<u8>) -> Option<Seq<u8>>;

/// The header of a raw stream: the length `len` of what was packed, seven bits
/// to a byte from the lowest up, with the top bit set on every byte but the
/// last.
pub open spec fn snap_header(len: nat) -> Seq<u8>
    decreases len,
{
    if len < 128 {
        seq![len as u8]
    } else {
        seq![(len % 128 + 128) as u8] + snap_header(len / 128)
    }
}

/// What is known of the shape of a raw stream made of `len` bytes: it starts
/// with the header for `len`, and it is no longer than the largest size the
/// packed form may take.
pub open spec fn snap_shaped(packed: Seq<u8>, len: nat) -> bool {
    &&& snap_header(len).is_prefix_of(packed)
    &&& 1 <= packed.len() <= 32 + len + len / 6
}

/// Calls `snap::raw::Encoder::compress_vec` on a fresh encoder.
///
/// Trusted: the encoder reads nothing but `data`, and reads it in one byte
/// order on every machine, so the outcome is the value that `snap_encoded`
/// names. The call fails exactly on the inputs that are too large for the
/// format, a test it makes on the length before it packs anything. A stream
/// that comes back starts with the length of `data` as its header, was cut
/// from a buffer of `32 + len + len / 6` bytes, and is one that
/// `decompress_vec` turns back into `data`.
#[verifier::external_body]
fn snap_encode(data: &[u8]) -> (r: Result<Vec<u8>, std::io::Error>)
    ensures
        match r {
            Ok(packed) => snap_encoded(data@) == Some(packed@),
            Err(_) => snap_encoded(data@) is None,
        },
        r is Ok <==> snap_accepts(data@.len()),
        r matches Ok(packed) ==> snap_shaped(packed@, data@.len()),
        r matches Ok(packed) ==> snap_decoded(packed@) == Some(data@),
{
    Ok(::snap::raw::Encoder::new().compress_vec(data)?)
}

/// Calls `snap::raw::Decoder::decompress_vec` on a fresh decoder.
///
/// Trusted: the outcome depends on `data` alone, so it is the value that
/// `snap_decoded` names.
#[verifier::external_body]
fn snap_decode(data: &[u8]) -> (r: Result<Vec<u8>, std::io::Error>)
    ensures
        match r {
            Ok(plain) => snap_decoded(data@) == Some(plain@),
            Err(_) => snap_decoded(data@) is None,
        },
{
    Ok(::snap::raw::Decoder::new().decompress_vec(data)?)
}

/// Snappy, which has nothing to configure.
#[derive(Copy, Clone)]
pub struct Snap;

impl Snap {
    /// The Snappy codec.
    pub fn new() -> (r: Self)
        ensures
            r == Snap,
    {
        Snap
    }
}

impl Compression for Snap {
    open spec fn decoded(&self, data: Seq<u8>) -> Option<Seq<u8>> {
        snap_decoded(data)
    }

    /// Succeeds exactly on the inputs that the raw format can hold. What
    /// comes back is what the encoder makes of `data`: its stream, which has
    /// the shape of a raw stream, or its error.
    fn compress(&mut self, data: &[u8]) -> (r: Result<Vec<u8>, std::io::Error>)
        ensures
            match r {
                Ok(packed) => snap_encoded(data@) == Some(packed@),
                Err(_) => snap_encoded(data@) is None,
            },
            r is Ok <==> snap_accepts(data@.len()),
            r matches Ok(packed) ==> snap_shaped(packed@, data@.len()),
    {
        snap_encode(data)
    }

    fn decompress(&mut self, data: &[u8]) -> (r: Result<Vec<u8>, std::io::Error>) {
        snap_decode(data)
    }

    fn clone_box(&self) -> (r: Codec)
        ensures
            r == Codec::Snap(*self),
    {
        Codec::Snap(*self)
    }
}

} // verus!
