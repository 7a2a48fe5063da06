[package]
name = "mls_worker"
version = "0.1.0"
edition = "2021"
publish = false

[dependencies]
openmls = "*"
wasm-bindgen = "*"
wasm-bindgen-futures = "*"
web-sys = { version = "*", features = ["console", "ReadableStream", "ReadableStreamDefaultReader", "RtcEncodedAudioFrame", "RtcEncodedVideoFrame", "WritableStream", "WritableStreamDefaultWriter"] }

[dev-dependencies]
openmls_rust_crypto = "*"
openmls_basic_credential = "*"
