[package]
name = "light_gen_subz"
version = "0.1.0"
edition = "2021"
publish = false

[dependencies]
anyhow = "=1.0.104"
dirs = "=5.0.1"
futures-util = "=0.3.34"
hound = "=3.5.1"
keyring = { version = "=3.6.3", features = ["apple-native", "windows-native", "linux-native"] }
reqwest = { version = "=0.12.28", default-features = false, features = ["blocking", "json", "multipart", "rustls-tls", "stream"] }
serde = { version = "=1.0.229", features = ["derive"] }
serde_json = "=1.0.154"
sha2 = "=0.10.9"
tokio = { version = "=1.54.1", features = ["fs", "io-util", "rt", "macros", "sync"] }
