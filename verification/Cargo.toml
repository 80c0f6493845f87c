[package]
name = "rust_cuda"
version = "0.1.0"
edition = "2021"
publish = false

[dependencies]
syn = { version = "1", features = ["full", "visit"] }
quote = "1"
thiserror = "1"
