[package]
name = "wasi_types"
version = "0.1.0"
edition = "2021"
publish = false

[dependencies]
bitflags = "1"
err-derive = "*"
proper = "*"
serde = { version = "1", features = ["derive"] }
