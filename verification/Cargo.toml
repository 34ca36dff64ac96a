[package]
name = "runjs"
version = "0.1.0"
edition = "2021"
publish = false

[dependencies]
anyhow = "1"
binaryen = "0.12"
bytes = "1"
http = "0.2"
once_cell = "1"
quickjs-wasm-rs = "0.1"
send_wrapper = "0.6"
serde = { version = "1", features = ["derive"] }
serde_bytes = "0.11"
structopt = "0.3"
wasmtime = "0.35"
wasmtime-wasi = "0.35"
wizer = "1.4"
