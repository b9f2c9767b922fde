[package]
name = "rs_jsonl2x"
version = "0.1.0"
edition = "2021"
publish = false

[dependencies]
serde_json = "*"
rust_xlsxwriter = "*"
clap = { version = "*", features = ["derive"] }
