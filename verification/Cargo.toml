[package]
name = "collector-ngx"
version = "0.1.0"
edition = "2021"
publish = false

[dependencies]
kafka = { version = "0.10.0", default-features = false }
lazy_static = "1.5.1"
serde_json = "1.0.154"
