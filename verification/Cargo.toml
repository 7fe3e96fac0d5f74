[package]
name = "codec_bench"
version = "0.1.0"
edition = "2021"
publish = false

[dependencies]
borsh = { version = "1", features = ["derive"] }
brotli = "*"
flate2 = "*"
lz4 = "*"
prettytable-rs = "*"
serde = { version = "1", features = ["derive"] }
serde_cbor = "*"
serde_json = "1"
snap = "*"
