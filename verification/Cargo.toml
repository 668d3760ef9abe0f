[package]
name = "byteseek"
version = "0.1.0"
edition = "2021"
publish = false

[dependencies]
js-sys = "0.3"
web-sys = { version = "0.3", features = ["Blob", "File", "FileReaderSync"] }
