[package]
name = "sm64_blockchain"
version = "0.1.0"
edition = "2021"
publish = false

[dependencies]
sha2 = "0.10"
hex = "0.4"
blake3 = "1"
chrono = { version = "0.4", default-features = false, features = ["clock", "std"] }
rand = "0.9"
serde = { version = "1", features = ["derive"] }
postcard = { version = "1", features = ["use-std"] }
anyhow = "1"
bytes = "1"
tokio = { version = "1", features = ["rt-multi-thread", "macros", "sync", "time"] }
futures-lite = "2"
n0-future = "*"
tracing = "0.1"
tracing-subscriber = { version = "0.3", default-features = false, features = ["fmt", "std"] }
clap = { version = "4", features = ["derive"] }
ctrlc = "3"
tempfile = "3"
libloading = "0.8"
snafu = "*"
n0-snafu = "*"
wasm-bindgen = "0.2"
console_error_panic_hook = "0.1"
tracing-subscriber-wasm = "*"
