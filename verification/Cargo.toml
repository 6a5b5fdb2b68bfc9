[package]
name = "wasm-crimp"
version = "0.1.0"
edition = "2021"
publish = false

[dependencies]
wasmtime-environ = { version = "=46.0.3", features = ["rr", "std"] }
anyhow = "=1.0.104"
serde = { version = "=1.0.229", features = ["derive"] }
postcard = { version = "=1.1.3", features = ["use-std"] }
clap = { version = "=4.6.7", features = ["derive"] }
