[package]
name = "into_into_dart"
version = "0.1.0"
edition = "2021"
publish = false

[dependencies]
allo-isolate = "0.1"
backtrace = "0.3"
chrono = "0.4"
uuid = "1"
wasm-bindgen = "0.2"
