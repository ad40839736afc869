[package]
name = "mosaic_core"
version = "0.1.0"
edition = "2021"
publish = false

[dependencies]
rand = "0.9"
sha1 = "0.10"
shlex = "1.3"
uuid = { version = "1", features = ["v4"] }
serde = { version = "1", features = ["derive"] }
serde_json = "1"
toml = "0.8"
