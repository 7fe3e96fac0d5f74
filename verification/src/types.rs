//! The capability that every codec offers.

use crate::broli::brotli_decoded;
use crate::broli::brotli_packs;
use crate::broli::Brotli;
use crate::deflate::deflate_decoded;
use crate::deflate::deflate_encoded;
use crate::deflate::Deflate;
use crate::gzip::gzip_decoded;
use crate::gzip::gzip_encoded;
use crate::gzip::Gzip;
use crate::lz4::lz4_decoded;
use crate::lz4::lz4_packs;
use crate::lz4::Lz4;
use crate::snap::snap_accepts;
use crate::snap::snap_decoded;
use crate::snap::snap_encoded;
use crate::snap::snap_shaped;
use crate::snap::Snap;
use crate::zlib::zlib_decoded;
use crate::zlib::zlib_encoded;
use crate::zlib::Zlib;
use vstd::prelude::*;

verus! {

/// `std::io::Error`, in which every codec reports what its algorithm
/// refused. It is carried through as it came: nothing here looks inside one.
#[verifier::external_type_specification]
#[verifier::external_body]
pub struct ExIoError(std::io::Error);

/// A lossless codec over byte sequences, configured once and stateless after
/// that.
///
/// `decoded` is the mathematical model of the codec: the function from a
/// packed stream to the bytes it stands for. Of packing the interface asks
/// only that the stream stand for the input, since an algorithm may be free
/// in the stream it makes; a codec that has one stream for each input says
/// which in its own contract.
pub trait Compression: Send + Sync + Sized {
    /// The bytes that the stream `data` stands for under this codec, or `None`
    /// where the codec rejects `data`.
    spec fn decoded(&self, data: Seq<u8>) -> Option<Seq<u8>>;

    /// Packs `data`. A stream that comes back is one that unpacks to `data`;
    /// an error is whatever the algorithm reported. The codec is left as it
    /// was.
    fn compress(&mut self, data: &[u8]) -> (r: Result<Vec<u8>, std::io::Error>)
        ensures
            *final(self) == *old(self),
            r matches Ok(packed) ==> old(self).decoded(packed@) == Some(data@),
    ;

    /// Unpacks `data`: the bytes it stands for, or an error exactly where the
    /// codec rejects it. The codec is left as it was.
    fn decompress(&mut self, data: &[u8]) -> (r: Result<Vec<u8>, std::io::Error>)
        ensures
            *final(self) == *old(self),
            match r {
                Ok(plain) => old(self).decoded(data@) == Some(plain@),
                Err(_) => old(self).decoded(data@) is None,
            },
    ;

    /// An independent codec with this one's configuration, as a member of the
    /// closed family of codecs. Each codec says in its own contract which
    /// member that is; whatever it is, it unpacks as this one does.
    fn clone_box(&self) -> (r: Codec)
        ensures
            forall|data: Seq<u8>| #[trigger] r.unpacked(data) == self.decoded(data),
    ;
}

/// The closed family of codecs: one variant for each algorithm, holding that
/// algorithm's configuration.
#[derive(Copy, Clone)]
pub enum Codec {
    Brotli(Brotli),
    Gzip(Gzip),
    Deflate(Deflate),
    Zlib(Zlib),
    Lz4(Lz4),
    Snap(Snap),
}

impl Codec {
    /// The bytes that the stream `data` stands for under this codec: what the
    /// algorithm of its variant unpacks `data` to.
    pub open spec fn unpacked(self, data: Seq<u8>) -> Option<Seq<u8>> {
        match self {
            Codec::Brotli(codec) => brotli_decoded(data, codec.buffer_size()),
            Codec::Gzip(_) => gzip_decoded(data),
            Codec::Deflate(_) => deflate_decoded(data),
            Codec::Zlib(_) => zlib_decoded(data),
            Codec::Lz4(_) => lz4_decoded(data),
            Codec::Snap(_) => snap_decoded(data),
        }
    }

    /// What this codec makes of `data`, where that is a function of `data`
    /// and the codec's settings alone: `Some` of the stream, or of `None`
    /// where the algorithm refuses `data`. It is `None` for Brotli and LZ4,
    /// whose streams vary from machine to machine.
    pub open spec fn packed(self, data: Seq<u8>) -> Option<Option<Seq<u8>>> {
        match self {
            Codec::Gzip(codec) => Some(gzip_encoded(data, codec.level())),
            Codec::Deflate(codec) => Some(deflate_encoded(data, codec.level())),
            Codec::Zlib(codec) => Some(zlib_encoded(data, codec.level())),
            Codec::Snap(_) => Some(snap_encoded(data)),
            Codec::Brotli(_) | Codec::Lz4(_) => None,
        }
    }

    /// Whether `stream` is one that the algorithm of this codec makes of
    /// `data` with the codec's settings, where the algorithm has more than
    /// one stream for an input: Brotli and LZ4. Of the others `packed` says
    /// which stream it is.
    pub open spec fn makes(self, data: Seq<u8>, stream: Seq<u8>) -> bool {
        match self {
            Codec::Brotli(codec) => brotli_packs(
                data,
                codec.quality(),
                codec.lgwin(),
                codec.buffer_size(),
                stream,
            ),
            Codec::Lz4(codec) => lz4_packs(data, codec.level(), stream),
            _ => true,
        }
    }

    /// Whether `stream` can be what this codec made of `data`: it stands for
    /// `data`; it is the one stream there is, where the codec has only one,
    /// and else one of those that the algorithm makes with the codec's
    /// settings; and it has the shape of a raw Snappy stream, where the codec
    /// is Snappy.
    pub open spec fn is_stream_of(self, stream: Seq<u8>, data: Seq<u8>) -> bool {
        &&& self.unpacked(stream) == Some(data)
        &&& self.packed(data) matches Some(outcome) ==> outcome == Some(stream)
        &&& self.makes(data, stream)
        &&& self is Snap ==> snap_shaped(stream, data.len())
    }

    /// Whether this codec is known to pack `data`: the one stream it has for
    /// `data` exists, or the codec is Snappy and `data` is of a size that its
    /// format can hold. Of Brotli and LZ4 nothing is known before they have
    /// run.
    pub open spec fn surely_packs(self, data: Seq<u8>) -> bool {
        ||| self.packed(data) matches Some(outcome) && outcome is Some
        ||| self is Snap && snap_accepts(data.len())
    }

    /// Whether this codec is known to refuse `data`: it has one outcome for
    /// `data` and that is a refusal, or the codec is Snappy and `data` is too
    /// large for its format.
    pub open spec fn never_packs(self, data: Seq<u8>) -> bool {
        ||| self.packed(data) matches Some(outcome) && outcome is None
        ||| self is Snap && !snap_accepts(data.len())
    }
}

impl Compression for Codec {
    open spec fn decoded(&self, data: Seq<u8>) -> Option<Seq<u8>> {
        self.unpacked(data)
    }

    /// A stream that comes back is all that is known of a stream of this
    /// codec; and where the outcome is known beforehand, it is that outcome.
    fn compress(&mut self, data: &[u8]) -> (r: Result<Vec<u8>, std::io::Error>)
        ensures
            r matches Ok(stream) ==> old(self).is_stream_of(stream@, data@),
            old(self).surely_packs(data@) ==> r is Ok,
            old(self).never_packs(data@) ==> r is Err,
    {
        match *self {
            Codec::Brotli(mut codec) => codec.compress(data),
            Codec::Gzip(mut codec) => codec.compress(data),
            Codec::Deflate(mut codec) => codec.compress(data),
            Codec::Zlib(mut codec) => codec.compress(data),
            Codec::Lz4(mut codec) => codec.compress(data),
            Codec::Snap(mut codec) => codec.compress(data),
        }
    }

    fn decompress(&mut self, data: &[u8]) -> (r: Result<Vec<u8>, std::io::Error>) {
        match *self {
            Codec::Brotli(mut codec) => codec.decompress(data),
            Codec::Gzip(mut codec) => codec.decompress(data),
            Codec::Deflate(mut codec) => codec.decompress(data),
            Codec::Zlib(mut codec) => codec.decompress(data),
            Codec::Lz4(mut codec) => codec.decompress(data),
            Codec::Snap(mut codec) => codec.decompress(data),
        }
    }

    fn clone_box(&self) -> (r: Codec)
        ensures
            r == *self,
    {
        *self
    }
}

} // verus!
