[package]
name = "future_stream_any"
version = "0.1.0"
edition = "2021"
publish = false

[dependencies]
futures = "=0.3.34"
wit-bindgen = { version = "0.51.0", features = ["async", "async-spawn"] }
