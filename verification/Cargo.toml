[package]
name = "cast_checks"
version = "0.1.6"
edition = "2021"
publish = false

[dependencies]
anyhow = "=1.0.104"
cargo_metadata = "=0.23.1"
proc-macro2 = "=1.0.107"
quote = "=1.0.47"
rustc_version = "0.4"
syn = { version = "=2.0.119", features = ["full", "visit", "visit-mut"] }
