//! Pluggable byte codecs behind one interface, and the measurements taken
//! with them: how small each codec makes an encoded record, as a share of a
//! baseline encoding of the same record.

pub mod bench;
pub mod broli;
pub mod deflate;
pub mod gzip;
pub mod lz4;
pub mod reduction;
pub mod snap;
pub mod table;
pub mod types;
pub mod zlib;
