[package]
name = "arnak"
version = "0.7.0"
edition = "2021"
publish = false

[dependencies]
chrono = "0.4"
reqwest = { version = "0.12", default-features = false }
serde = { version = "1", features = ["derive"] }
serde-xml-rs = "0.6"
tokio = { version = "1", features = ["time", "rt", "macros"] }
xml-rs = "0.8"
