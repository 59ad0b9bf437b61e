[package]
name = "json_sample"
version = "0.1.0"
edition = "2021"
publish = false

[dependencies]
serde_json = { version = "*", features = ["preserve_order"] }
reqwest = { version = "*", default-features = false, features = ["blocking", "rustls-tls"] }
