[package]
name = "hello_actor"
version = "0.1.0"
edition = "2021"
publish = false

[dependencies]
async-trait = "*"
messages = "*"
rinf = "*"
serde = { version = "*", features = ["derive"] }
tokio = { version = "*", features = ["macros", "rt", "sync"] }
tokio_with_wasm = "*"
