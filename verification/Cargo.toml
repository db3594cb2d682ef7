[package]
name = "rclib"
version = "0.1.0"
edition = "2021"
publish = false

[dependencies]
anyhow = "1"
clap = "4"
jsonpath_lib = "0.3"
openapiv3 = "2"
reqwest = { version = "0.12", features = ["blocking", "multipart"] }
serde = { version = "1", features = ["derive"] }
serde_json = "1"
serde_yaml = "0.9"
uuid = { version = "1", features = ["v4"] }
