[package]
name = "rateproxy"
version = "0.1.0"
edition = "2021"
publish = false

[dependencies]
dashmap = "*"
reqwest = "*"
serde_json = "*"
tokio = { version = "*", features = ["macros", "rt-multi-thread", "time"] }
warp = { version = "*", features = ["tls"] }
