[package]
name = "libmdbx_bindings"
version = "0.1.0"
edition = "2021"
publish = false

[dependencies]
zstd = "0.13"
page_size = "0.6"
rkyv = { version = "0.7", features = ["validation"] }
alloy-rlp = "0.3"
bytes = "1"
eyre = "0.6"
