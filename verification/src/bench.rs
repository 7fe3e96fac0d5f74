//! The measurements: each codec applied to each encoding of one record, and
//! the size that came out held against a baseline.

use crate::broli::Brotli;
use crate::deflate::Deflate;
use crate::gzip::Gzip;
use crate::lz4::Lz4;
use crate::reduction::json_reduction;
use crate::reduction::lemma_reduction_of_baseline;
use crate::reduction::reduction_percent;
use crate::snap::Snap;
use crate::table::TableRow;
use crate::types::Codec;
use crate::types::Compression;
use crate::zlib::Zlib;
use vstd::prelude::*;
use vstd::string::*;

verus! {

/// A codec to measure, under the name that its rows carry.
#[derive(Clone)]
pub struct CompressionBench {
    pub name: String,
    pub compression: Codec,
}

/// The label of a row for `format` packed with `algorithm`: the format, then
/// the algorithm in round brackets.
pub open spec fn packed_label(format: Seq<char>, algorithm: Seq<char>) -> Seq<char> {
    format + seq!['('] + algorithm + seq![')']
}

/// Whether `size` is the length of a stream that `codec` can have made of
/// `plain`.
pub open spec fn packs_to(codec: Codec, plain: Seq<u8>, size: nat) -> bool {
    exists|stream: Seq<u8>| #[trigger] codec.is_stream_of(stream, plain) && stream.len() == size
}

/// Whether `row` reports an encoding of `size` bytes under the label `method`
/// against a baseline of `baseline` bytes.
pub open spec fn is_plain_row(row: TableRow, method: Seq<char>, size: nat, baseline: nat) -> bool {
    &&& row.method@ == method
    &&& row.bytes == size
    &&& row.reduction == reduction_percent(baseline, size)
}

/// Whether `row` reports `encoded`, an encoding in `format`, packed by
/// `bench`: its label names both; its size is that of a stream that the codec
/// can have made of `encoded`, which is the size of the one stream there is
/// where the codec has only one; and its reduction is that of this size.
pub open spec fn is_packed_row(
    row: TableRow,
    bench: CompressionBench,
    format: Seq<char>,
    encoded: Seq<u8>,
    baseline: nat,
) -> bool {
    &&& row.method@ == packed_label(format, bench.name@)
    &&& packs_to(bench.compression, encoded, row.bytes as nat)
    &&& bench.compression.packed(encoded) matches Some(Some(stream)) ==> row.bytes == stream.len()
    &&& row.reduction == reduction_percent(baseline, row.bytes as nat)
}

/// The label of a row for `format` packed with `algorithm`.
pub fn compressed_label(format: &str, algorithm: &str) -> (r: String)
    ensures
        r@ == packed_label(format@, algorithm@),
{
    let mut label = String::from_str(format);
    label.append("(");
    label.append(algorithm);
    label.append(")");
    proof {
        reveal_strlit("(");
        reveal_strlit(")");
        assert("("@ == seq!['(']);
        assert(")"@ == seq![')']);
    }
    label
}

/// The row of the baseline encoding itself, whose reduction is 0.
pub fn baseline_row(method: &str, bytes: usize) -> (r: TableRow)
    ensures
        r.method@ == method@,
        r.bytes == bytes,
        r.reduction == 0,
        is_plain_row(r, method@, bytes as nat, bytes as nat),
{
    proof {
        lemma_reduction_of_baseline(bytes as nat);
    }
    TableRow { method: String::from_str(method), bytes, reduction: 0 }
}

/// The row of an encoding of `bytes` bytes under the label `method`, held
/// against `baseline`.
pub fn measured_row(method: String, bytes: usize, baseline: usize) -> (r: TableRow)
    ensures
        r.method == method,
        is_plain_row(r, method@, bytes as nat, baseline as nat),
{
    TableRow { method, bytes, reduction: json_reduction(baseline, bytes) }
}

/// The row of `packed`, the stream that the codec of `bench` made of an
/// encoding in `format`, held against `baseline`.
pub fn packed_row(bench: &CompressionBench, format: &str, packed: &[u8], baseline: usize) -> (r:
    TableRow)
    ensures
        r.method@ == packed_label(format@, bench.name@),
        r.bytes == packed@.len(),
        r.reduction == reduction_percent(baseline as nat, packed@.len()),
{
    measured_row(compressed_label(format, bench.name.as_str()), packed.len(), baseline)
}

/// Packs `data` with `codec` and unpacks the result again: the packed stream,
/// which stands for `data`, and the bytes that came back, which are `data`. It
/// fails only where packing fails, since what was packed always unpacks; and
/// where the codec has one outcome for `data`, packing has that outcome.
pub fn round_trip(codec: &mut Codec, data: &[u8]) -> (r: Result<
    (Vec<u8>, Vec<u8>),
    std::io::Error,
>)
    ensures
        *final(codec) == *old(codec),
        r matches Ok((packed, restored)) ==> {
            &&& old(codec).is_stream_of(packed@, data@)
            &&& restored@ == data@
        },
        old(codec).surely_packs(data@) ==> r is Ok,
        old(codec).never_packs(data@) ==> r is Err,
{
    let packed = codec.compress(data)?;
    let restored = codec.decompress(packed.as_slice())?;
    Ok((packed, restored))
}

/// Measures one codec on one encoding: packs `encoded` with a duplicate of the
/// codec of `bench`, unpacks it again, and reports the packed size against
/// `baseline`. Beside the row come the bytes that were unpacked, which are
/// `encoded`, for the caller to decode and hold against the record.
pub fn measure(bench: &CompressionBench, format: &str, encoded: &[u8], baseline: usize) -> (r:
    Result<(TableRow, Vec<u8>), std::io::Error>)
    ensures
        r matches Ok((row, restored)) ==> {
            &&& is_packed_row(row, *bench, format@, encoded@, baseline as nat)
            &&& restored@ == encoded@
        },
        bench.compression.surely_packs(encoded@) ==> r is Ok,
        bench.compression.never_packs(encoded@) ==> r is Err,
{
    let mut codec = bench.compression.clone_box();
    let (packed, restored) = round_trip(&mut codec, encoded)?;
    Ok((packed_row(bench, format, packed.as_slice(), baseline), restored))
}

/// Whether `rows` is what one format contributes to the table: the row of the
/// encoding as it is, then one row for each of `benches`, in their order.
pub open spec fn is_format_block(
    rows: Seq<TableRow>,
    benches: Seq<CompressionBench>,
    format: Seq<char>,
    encoded: Seq<u8>,
    baseline: nat,
) -> bool {
    &&& rows.len() == benches.len() + 1
    &&& is_plain_row(rows[0], format, encoded.len(), baseline)
    &&& forall|i: int|
        0 <= i < benches.len() ==> is_packed_row(
            rows[i + 1],
            #[trigger] benches[i],
            format,
            encoded,
            baseline,
        )
}

/// Whether every codec of `benches` is known to pack `data`.
pub open spec fn all_surely_pack(benches: Seq<CompressionBench>, data: Seq<u8>) -> bool {
    forall|i: int| 0 <= i < benches.len() ==> (#[trigger] benches[i]).compression.surely_packs(data)
}

/// Whether some codec of `benches` is known to refuse `data`.
pub open spec fn some_never_packs(benches: Seq<CompressionBench>, data: Seq<u8>) -> bool {
    exists|i: int| 0 <= i < benches.len() && (#[trigger] benches[i]).compression.never_packs(data)
}

/// Measures one format: the encoding as it is, then packed by each of
/// `benches` in turn. Beside the rows come the bytes that each codec unpacked,
/// one entry for each of `benches`, every one of them `encoded`. The first
/// codec that fails ends the measurement with its error. With no codec to
/// fail, or only codecs known to pack the input, the measurement succeeds;
/// with a codec known to refuse the input, it fails.
pub fn measure_format(
    benches: &Vec<CompressionBench>,
    format: &str,
    encoded: &[u8],
    baseline: usize,
) -> (r: Result<(Vec<TableRow>, Vec<Vec<u8>>), std::io::Error>)
    ensures
        r matches Ok((rows, restored)) ==> {
            &&& is_format_block(rows@, benches@, format@, encoded@, baseline as nat)
            &&& restored@.len() == benches@.len()
            &&& forall|i: int| 0 <= i < restored@.len() ==> (#[trigger] restored@[i])@ == encoded@
        },
        all_surely_pack(benches@, encoded@) ==> r is Ok,
        some_never_packs(benches@, encoded@) ==> r is Err,
{
    let mut rows: Vec<TableRow> = Vec::new();
    let mut restored: Vec<Vec<u8>> = Vec::new();
    rows.push(measured_row(String::from_str(format), encoded.len(), baseline));
    let mut i: usize = 0;
    while i < benches.len()
        invariant
            i <= benches.len(),
            rows@.len() == i + 1,
            restored@.len() == i,
            is_plain_row(rows@[0], format@, encoded@.len(), baseline as nat),
            forall|k: int|
                0 <= k < i ==> is_packed_row(
                    rows@[k + 1],
                    #[trigger] benches@[k],
                    format@,
                    encoded@,
                    baseline as nat,
                ),
            forall|k: int| 0 <= k < i ==> (#[trigger] restored@[k])@ == encoded@,
            forall|k: int|
                0 <= k < i ==> !(#[trigger] benches@[k]).compression.never_packs(encoded@),
        decreases benches.len() - i,
    {
        let (row, bytes) = measure(&benches[i], format, encoded, baseline)?;
        rows.push(row);
        restored.push(bytes);
        i += 1;
    }
    Ok((rows, restored))
}

/// What a run of the benchmark yields.
pub struct Report {
    /// The rows in the order in which they were measured.
    pub rows: Vec<TableRow>,
    /// What each codec unpacked, in the order of the packed rows.
    pub restored: Vec<Vec<u8>>,
}

/// Whether `report` is the outcome of measuring `benches` on the schema-binary
/// encoding `borsh` and the CBOR encoding `cbor` of one record, against its
/// JSON encoding `json` as the baseline: first the baseline row, whose
/// reduction is 0, then the block of the schema-binary format, then that of
/// CBOR; and for every packed row the bytes that were unpacked, which are the
/// encoding that was packed.
pub open spec fn is_report(
    report: Report,
    benches: Seq<CompressionBench>,
    json: Seq<u8>,
    borsh: Seq<u8>,
    cbor: Seq<u8>,
) -> bool {
    let n = benches.len() as int;
    let rows = report.rows@;
    let restored = report.restored@;
    &&& rows.len() == 2 * n + 3
    &&& is_plain_row(rows[0], "json"@, json.len(), json.len())
    &&& rows[0].reduction == 0
    &&& is_format_block(rows.subrange(1, n + 2), benches, "borsh"@, borsh, json.len())
    &&& is_format_block(rows.subrange(n + 2, 2 * n + 3), benches, "cbor"@, cbor, json.len())
    &&& restored.len() == 2 * n
    &&& forall|i: int| 0 <= i < n ==> (#[trigger] restored[i])@ == borsh
    &&& forall|i: int| n <= i < 2 * n ==> (#[trigger] restored[i])@ == cbor
}

/// Runs the benchmark on the three encodings of one record: `json` is the
/// baseline, `borsh` and `cbor` are measured as they are and packed by each of
/// `benches`. The first codec that fails ends the run with its error. With no
/// codec to fail, or only codecs known to pack both encodings, the run
/// succeeds; with a codec known to refuse one of them, it fails.
pub fn benchmark(benches: &Vec<CompressionBench>, json: &[u8], borsh: &[u8], cbor: &[u8]) -> (r:
    Result<Report, std::io::Error>)
    ensures
        r matches Ok(report) ==> is_report(report, benches@, json@, borsh@, cbor@),
        all_surely_pack(benches@, borsh@) && all_surely_pack(benches@, cbor@) ==> r is Ok,
        some_never_packs(benches@, borsh@) || some_never_packs(benches@, cbor@) ==> r is Err,
{
    let baseline = json.len();
    let mut rows: Vec<TableRow> = Vec::new();
    rows.push(baseline_row("json", baseline));
    let (mut borsh_rows, mut restored) = measure_format(benches, "borsh", borsh, baseline)?;
    let (mut cbor_rows, mut cbor_restored) = measure_format(benches, "cbor", cbor, baseline)?;
    let ghost first = rows@;
    let ghost second = borsh_rows@;
    let ghost third = cbor_rows@;
    let ghost borsh_back = restored@;
    let ghost cbor_back = cbor_restored@;
    rows.append(&mut borsh_rows);
    rows.append(&mut cbor_rows);
    restored.append(&mut cbor_restored);
    let report = Report { rows, restored };
    proof {
        let n = benches@.len() as int;
        assert(report.rows@ == first + second + third);
        assert(report.rows@.subrange(1, n + 2) == second);
        assert(report.rows@.subrange(n + 2, 2 * n + 3) == third);
        assert(report.restored@ == borsh_back + cbor_back);
        assert forall|i: int| n <= i < 2 * n implies (#[trigger] report.restored@[i])@
            == cbor@ by {
            assert(report.restored@[i] == cbor_back[i - n]);
        }
    }
    Ok(report)
}

/// The six codecs at their strongest settings, under their usual names, in the
/// order in which the table lists them before it is sorted.
pub fn standard_benches() -> (r: Vec<CompressionBench>)
    ensures
        r@.len() == 6,
        r@[0].name@ == "brotli"@,
        r@[0].compression matches Codec::Brotli(codec) && codec.quality() == 11 && codec.lgwin()
            == 22 && codec.buffer_size() == 4096,
        r@[1].name@ == "gzip"@,
        r@[1].compression matches Codec::Gzip(codec) && codec.level() == 9,
        r@[2].name@ == "deflate"@,
        r@[2].compression matches Codec::Deflate(codec) && codec.level() == 9,
        r@[3].name@ == "zlib"@,
        r@[3].compression matches Codec::Zlib(codec) && codec.level() == 9,
        r@[4].name@ == "lz4"@,
        r@[4].compression matches Codec::Lz4(codec) && codec.level() == 16,
        r@[5].name@ == "snap"@,
        r@[5].compression == Codec::Snap(Snap),
{
    let mut benches: Vec<CompressionBench> = Vec::new();
    benches.push(
        CompressionBench {
            name: String::from_str("brotli"),
            compression: Codec::Brotli(Brotli::new(11, 22, 4096)),
        },
    );
    benches.push(
        CompressionBench { name: String::from_str("gzip"), compression: Codec::Gzip(Gzip::new(9)) },
    );
    benches.push(
        CompressionBench {
            name: String::from_str("deflate"),
            compression: Codec::Deflate(Deflate::new(9)),
        },
    );
    benches.push(
        CompressionBench { name: String::from_str("zlib"), compression: Codec::Zlib(Zlib::new(9)) },
    );
    benches.push(
        CompressionBench { name: String::from_str("lz4"), compression: Codec::Lz4(Lz4::new(16)) },
    );
    benches.push(
        CompressionBench { name: String::from_str("snap"), compression: Codec::Snap(Snap::new()) },
    );
    benches
}

} // verus!
