use codec_bench::bench::{
    baseline_row, benchmark, compressed_label, measure, measure_format, measured_row, packed_row,
    round_trip, standard_benches, CompressionBench,
};
use codec_bench::broli::Brotli;
use codec_bench::gzip::Gzip;
use codec_bench::snap::Snap;
use codec_bench::table::sort_rows;
use codec_bench::types::{Codec, Compression};
use std::collections::BTreeMap;

type Fields = (String, String, String, u64, u64, u64);

fn sample() -> Fields {
    ("String A".to_string(), "String B".to_string(), "String C".to_string(), 1, 1, u64::MAX)
}

fn names() -> [&'static str; 6] {
    ["long_field_a", "long_field_b", "long_field_c", "long_field_x", "long_field_y", "long_field_z"]
}

fn json_of(record: &Fields) -> Vec<u8> {
    let mut object = serde_json::Map::new();
    object.insert(names()[0].to_string(), serde_json::Value::from(record.0.clone()));
    object.insert(names()[1].to_string(), serde_json::Value::from(record.1.clone()));
    object.insert(names()[2].to_string(), serde_json::Value::from(record.2.clone()));
    object.insert(names()[3].to_string(), serde_json::Value::from(record.3));
    object.insert(names()[4].to_string(), serde_json::Value::from(record.4));
    object.insert(names()[5].to_string(), serde_json::Value::from(record.5));
    serde_json::to_vec(&serde_json::Value::Object(object)).unwrap()
}

fn from_json(bytes: &[u8]) -> Fields {
    let value: serde_json::Value = serde_json::from_slice(bytes).unwrap();
    let text = |i: usize| value[names()[i]].as_str().unwrap().to_string();
    let number = |i: usize| value[names()[i]].as_u64().unwrap();
    (text(0), text(1), text(2), number(3), number(4), number(5))
}

fn cbor_of(record: &Fields) -> Vec<u8> {
    let key = |i: usize| serde_cbor::Value::Text(names()[i].to_string());
    let mut map = BTreeMap::new();
    map.insert(key(0), serde_cbor::Value::Text(record.0.clone()));
    map.insert(key(1), serde_cbor::Value::Text(record.1.clone()));
    map.insert(key(2), serde_cbor::Value::Text(record.2.clone()));
    map.insert(key(3), serde_cbor::Value::Integer(record.3 as i128));
    map.insert(key(4), serde_cbor::Value::Integer(record.4 as i128));
    map.insert(key(5), serde_cbor::Value::Integer(record.5 as i128));
    serde_cbor::to_vec(&serde_cbor::Value::Map(map)).unwrap()
}

fn from_cbor(bytes: &[u8]) -> Fields {
    let value: serde_cbor::Value = serde_cbor::from_slice(bytes).unwrap();
    let map = match value {
        serde_cbor::Value::Map(map) => map,
        _ => panic!("not a map"),
    };
    let text = |i: usize| match &map[&serde_cbor::Value::Text(names()[i].to_string())] {
        serde_cbor::Value::Text(s) => s.clone(),
        _ => panic!("not a text"),
    };
    let number = |i: usize| match &map[&serde_cbor::Value::Text(names()[i].to_string())] {
        serde_cbor::Value::Integer(n) => *n as u64,
        _ => panic!("not an integer"),
    };
    (text(0), text(1), text(2), number(3), number(4), number(5))
}

fn borsh_of(record: &Fields) -> Vec<u8> {
    borsh::to_vec(record).unwrap()
}

fn from_borsh(bytes: &[u8]) -> Fields {
    borsh::from_slice::<Fields>(bytes).unwrap()
}

#[test]
fn the_sample_has_the_expected_encodings() {
    let json = json_of(&sample());
    let expected = "{\"long_field_a\":\"String A\",\"long_field_b\":\"String B\",\
        \"long_field_c\":\"String C\",\"long_field_x\":1,\"long_field_y\":1,\
        \"long_field_z\":18446744073709551615}";
    assert_eq!(String::from_utf8(json).unwrap(), expected);
    assert_eq!(expected.len(), 149);
    let borsh = borsh_of(&sample());
    assert_eq!(borsh.len(), 60);
    assert_eq!(&borsh[..12], b"\x08\x00\x00\x00String A");
    assert_eq!(&borsh[52..], &[0xff; 8]);
    let cbor = cbor_of(&sample());
    assert_eq!(cbor.len(), 117);
    assert_eq!(cbor[0], 0xa6);
}

#[test]
fn every_serialization_round_trips_the_sample() {
    assert_eq!(from_json(&json_of(&sample())), sample());
    assert_eq!(from_borsh(&borsh_of(&sample())), sample());
    assert_eq!(from_cbor(&cbor_of(&sample())), sample());
}

#[test]
fn labels_name_the_format_and_the_algorithm() {
    assert_eq!(compressed_label("borsh", "brotli"), "borsh(brotli)");
    assert_eq!(compressed_label("cbor", "snap"), "cbor(snap)");
    assert_eq!(compressed_label("", ""), "()");
    assert_eq!(compressed_label("a(b)", "c"), "a(b)(c)");
}

#[test]
fn the_baseline_row_has_no_reduction() {
    for bytes in [0usize, 1, 149, usize::MAX] {
        let row = baseline_row("json", bytes);
        assert_eq!(row.method, "json");
        assert_eq!(row.bytes, bytes);
        assert_eq!(row.reduction, 0);
    }
}

#[test]
fn a_measured_row_carries_the_reduction_of_its_size() {
    let row = measured_row("borsh".to_string(), 60, 149);
    assert_eq!((row.method.as_str(), row.bytes, row.reduction), ("borsh", 60, 59));
    let row = measured_row("cbor".to_string(), 117, 149);
    assert_eq!((row.method.as_str(), row.bytes, row.reduction), ("cbor", 117, 21));
    let row = measured_row("big".to_string(), 150, 100);
    assert_eq!((row.method.as_str(), row.bytes, row.reduction), ("big", 150, -50));
}

#[test]
fn the_standard_benches_are_the_six_codecs_at_their_strongest() {
    let benches = standard_benches();
    let names: Vec<&str> = benches.iter().map(|b| b.name.as_str()).collect();
    assert_eq!(names, vec!["brotli", "gzip", "deflate", "zlib", "lz4", "snap"]);
    match benches[0].compression {
        Codec::Brotli(codec) => {
            assert_eq!((codec.quality(), codec.lgwin(), codec.buffer_size()), (11, 22, 4096))
        }
        _ => panic!("not the Brotli variant"),
    }
    match benches[1].compression {
        Codec::Gzip(codec) => assert_eq!(codec.level(), 9),
        _ => panic!("not the gzip variant"),
    }
    match benches[2].compression {
        Codec::Deflate(codec) => assert_eq!(codec.level(), 9),
        _ => panic!("not the DEFLATE variant"),
    }
    match benches[3].compression {
        Codec::Zlib(codec) => assert_eq!(codec.level(), 9),
        _ => panic!("not the zlib variant"),
    }
    match benches[4].compression {
        Codec::Lz4(codec) => assert_eq!(codec.level(), 16),
        _ => panic!("not the LZ4 variant"),
    }
    assert!(matches!(benches[5].compression, Codec::Snap(_)));
}

#[test]
fn a_round_trip_gives_the_packed_stream_and_the_input_back() {
    let input = vec![b'a'; 5000];
    for bench in standard_benches() {
        let mut codec = bench.compression;
        let (packed, restored) = round_trip(&mut codec, &input).unwrap();
        assert_eq!(restored, input);
        assert_eq!(packed, bench.compression.clone_box().compress(&input).unwrap());
        assert_eq!(codec.decompress(&packed).unwrap(), input);
        assert!(packed.len() < input.len());
    }
}

#[test]
fn a_packed_row_reports_the_size_of_the_stream() {
    let bench =
        CompressionBench { name: "gzip".to_string(), compression: Codec::Gzip(Gzip::new(9)) };
    let row = packed_row(&bench, "cbor", &[0u8; 60], 149);
    assert_eq!((row.method.as_str(), row.bytes, row.reduction), ("cbor(gzip)", 60, 59));
    let row = packed_row(&bench, "borsh", &[], 149);
    assert_eq!((row.method.as_str(), row.bytes, row.reduction), ("borsh(gzip)", 0, 100));
    let row = packed_row(&bench, "borsh", &[7u8; 300], 149);
    assert_eq!((row.method.as_str(), row.bytes, row.reduction), ("borsh(gzip)", 300, -101));
}

#[test]
fn strongest_brotli_restores_the_sample_and_shrinks_its_binary_encoding() {
    let borsh = borsh_of(&sample());
    let mut codec = Brotli::new(11, 22, 4096);
    let packed = codec.compress(&borsh).unwrap();
    let restored = codec.decompress(&packed).unwrap();
    assert_eq!(restored, borsh);
    assert_eq!(from_borsh(&restored), sample());
    assert!(packed.len() < borsh.len());
    let bench = CompressionBench { name: "brotli".to_string(), compression: Codec::Brotli(codec) };
    let (row, back) = measure(&bench, "borsh", &borsh, json_of(&sample()).len()).unwrap();
    assert_eq!(row.method, "borsh(brotli)");
    assert_eq!(row.bytes, packed.len());
    assert!(row.bytes < 60);
    assert!(row.reduction > 59);
    assert_eq!(from_borsh(&back), sample());
}

#[test]
fn measuring_reports_the_packed_size_against_the_baseline() {
    let bench =
        CompressionBench { name: "snap".to_string(), compression: Codec::Snap(Snap::new()) };
    let (row, restored) = measure(&bench, "raw", b"String A", 16).unwrap();
    assert_eq!((row.method.as_str(), row.bytes, row.reduction), ("raw(snap)", 10, 37));
    assert_eq!(restored, b"String A".to_vec());
    let (row, restored) = measure(&bench, "raw", b"", 4).unwrap();
    assert_eq!((row.method.as_str(), row.bytes, row.reduction), ("raw(snap)", 1, 75));
    assert!(restored.is_empty());
    let (row, _) = measure(&bench, "raw", b"String A", 8).unwrap();
    assert_eq!(row.reduction, -25);
    let (row, _) = measure(&bench, "raw", b"String A", 0).unwrap();
    assert_eq!(row.reduction, i32::MIN);
}

#[test]
fn measuring_a_format_gives_its_own_row_and_one_for_each_codec() {
    let benches = vec![
        CompressionBench { name: "snap".to_string(), compression: Codec::Snap(Snap::new()) },
        CompressionBench { name: "gz".to_string(), compression: Codec::Gzip(Gzip::new(0)) },
    ];
    let input = b"String A".to_vec();
    let (rows, restored) = measure_format(&benches, "raw", &input, 16).unwrap();
    assert_eq!(rows.len(), 3);
    assert_eq!((rows[0].method.as_str(), rows[0].bytes, rows[0].reduction), ("raw", 8, 50));
    assert_eq!((rows[1].method.as_str(), rows[1].bytes, rows[1].reduction), ("raw(snap)", 10, 37));
    let gz = Gzip::new(0).compress(&input).unwrap().len();
    assert_eq!(gz, 31);
    assert_eq!((rows[2].method.as_str(), rows[2].bytes, rows[2].reduction), ("raw(gz)", 31, -93));
    assert_eq!(restored, vec![input.clone(), input]);
    let (rows, restored) = measure_format(&Vec::new(), "raw", b"abc", 3).unwrap();
    assert_eq!(rows.len(), 1);
    assert_eq!((rows[0].method.as_str(), rows[0].bytes, rows[0].reduction), ("raw", 3, 0));
    assert!(restored.is_empty());
}

#[test]
fn the_benchmark_of_the_sample_lists_every_measurement() {
    let json = json_of(&sample());
    let borsh = borsh_of(&sample());
    let cbor = cbor_of(&sample());
    let benches = standard_benches();
    let report = benchmark(&benches, &json, &borsh, &cbor).unwrap();
    let methods: Vec<&str> = report.rows.iter().map(|r| r.method.as_str()).collect();
    assert_eq!(
        methods,
        vec![
            "json",
            "borsh",
            "borsh(brotli)",
            "borsh(gzip)",
            "borsh(deflate)",
            "borsh(zlib)",
            "borsh(lz4)",
            "borsh(snap)",
            "cbor",
            "cbor(brotli)",
            "cbor(gzip)",
            "cbor(deflate)",
            "cbor(zlib)",
            "cbor(lz4)",
            "cbor(snap)",
        ]
    );
    assert_eq!((report.rows[0].bytes, report.rows[0].reduction), (149, 0));
    assert_eq!((report.rows[1].bytes, report.rows[1].reduction), (60, 59));
    assert_eq!((report.rows[8].bytes, report.rows[8].reduction), (117, 21));
    for (i, bench) in benches.iter().enumerate() {
        let packed = bench.compression.clone_box().compress(&borsh).unwrap();
        assert_eq!(report.rows[2 + i].bytes, packed.len());
        let packed = bench.compression.clone_box().compress(&cbor).unwrap();
        assert_eq!(report.rows[9 + i].bytes, packed.len());
    }
    for row in &report.rows {
        assert_eq!(row.reduction as i64, (149 - row.bytes as i64) * 100 / 149);
    }
    assert_eq!(report.restored.len(), 12);
    for i in 0..6 {
        assert_eq!(from_borsh(&report.restored[i]), sample());
        assert_eq!(from_cbor(&report.restored[6 + i]), sample());
    }
}

#[test]
fn the_sorted_table_of_the_sample_falls_from_row_to_row() {
    let json = json_of(&sample());
    let borsh = borsh_of(&sample());
    let cbor = cbor_of(&sample());
    let mut rows = benchmark(&standard_benches(), &json, &borsh, &cbor).unwrap().rows;
    let unsorted: Vec<(String, i32)> = rows.iter().map(|r| (r.method.clone(), r.reduction)).collect();
    sort_rows(&mut rows);
    assert_eq!(rows.len(), 15);
    for pair in rows.windows(2) {
        assert!(pair[0].reduction >= pair[1].reduction);
        if pair[0].reduction == pair[1].reduction {
            let earlier = unsorted.iter().position(|u| u.0 == pair[0].method).unwrap();
            let later = unsorted.iter().position(|u| u.0 == pair[1].method).unwrap();
            assert!(earlier < later);
        }
    }
    assert!(rows.iter().any(|r| r.method == "json" && r.reduction == 0));
    let best = unsorted.iter().map(|u| u.1).max().unwrap();
    assert_eq!(rows[0].reduction, best);
    let first_best = unsorted.iter().find(|u| u.1 == best).unwrap();
    assert_eq!(rows[0].method, first_best.0);
}

#[test]
fn a_benchmark_without_codecs_lists_the_three_encodings() {
    let report = benchmark(&Vec::new(), b"123456", b"123", b"1234567890").unwrap();
    assert_eq!(report.rows.len(), 3);
    let got: Vec<(&str, usize, i32)> =
        report.rows.iter().map(|r| (r.method.as_str(), r.bytes, r.reduction)).collect();
    assert_eq!(got, vec![("json", 6, 0), ("borsh", 3, 50), ("cbor", 10, -66)]);
    assert!(report.restored.is_empty());
}
