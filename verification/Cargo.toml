[package]
name = "manifest_writer"
version = "0.1.0"
edition = "2021"
publish = false

[dependencies]
anyhow = "1"
tokio = { version = "1", features = ["fs", "io-util"] }
tracing = "0.1"

[dev-dependencies]
indoc = "2"
unindent = "0.2"
