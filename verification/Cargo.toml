[package]
name = "deepseek-harness-sdk-rs"
version = "0.1.0-rc.6"
edition = "2021"
publish = false

[dependencies]
serde_json = "1"
serde = { version = "1", features = ["derive"] }
hex = "0.4"
sha2 = "0.10"
zip = { version = "2", default-features = false, features = ["deflate"] }
uuid = { version = "1", features = ["v4"] }
tokio = { version = "1", features = ["rt", "rt-multi-thread", "macros", "io-util", "io-std", "process", "sync", "time"] }
ureq = "3"
dirs = "6"
thiserror = "2"
libc = "0.2"

[dev-dependencies]
tempfile = "3"
