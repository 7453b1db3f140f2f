[package]
name = "obscur_native"
version = "0.1.0"
edition = "2021"
publish = false

[dependencies]
url = "=2.5.8"
serde_json = "=1.0.154"
serde = { version = "=1.0.229", features = ["derive"] }
nostr = { version = "0.44", features = ["std", "nip04"] }
base64 = "=0.22.1"
zeroize = "=1.9.1"
tokio = { version = "=1.54.1", features = ["rt-multi-thread", "macros", "net", "time", "sync", "io-util", "io-std", "process"] }
tokio-tungstenite = { version = "=0.30.0", features = ["rustls-tls-native-roots"] }
tokio-socks = "=0.5.3"
futures-util = "=0.3.34"
reqwest = { version = "=0.12.28", default-features = false, features = ["multipart", "socks", "rustls-tls"] }
rustls = { version = "=0.23.46", default-features = false, features = ["ring", "std", "tls12", "logging"] }
rustls-native-certs = "=0.8.5"
keyring = { version = "=3.6.3", features = ["apple-native", "windows-native", "linux-native"] }
