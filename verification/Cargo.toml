[package]
name = "tmcp"
version = "0.1.0"
edition = "2021"
publish = false

[dependencies]
serde = { version = "=1.0.229", features = ["derive"] }
serde_json = "=1.0.154"
url = "=2.5.8"
http = "=1.5.0"
heck = "=0.5.0"
sha2 = "=0.10.9"
subtle = "=2.6.1"
syn = "=2.0.119"
tokio = { version = "=1.54.1", features = ["net", "io-util", "rt", "macros", "sync", "time"] }
rhai = { version = "=1.27.0", features = ["serde", "sync"] }
