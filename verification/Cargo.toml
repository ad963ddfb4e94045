[package]
name = "geiger_mapping"
version = "0.1.0"
edition = "2021"
publish = false

[dependencies]
cargo = "=0.86.0"
cargo-geiger-serde = "=0.3.0"
cargo-util = "=0.2.14"
cargo_metadata = "=0.23.1"
krates = "=0.22.0"
kstring = "=2.0.0"
