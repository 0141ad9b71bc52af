[package]
name = "catbox_cli"
version = "0.1.0"
edition = "2021"
publish = false

[dependencies]
argh = "0.1"
color-eyre = "0.6"
futures-util = "0.3"
indicatif = "0.17"
keyring = { version = "3", features = ["apple-native", "linux-native", "windows-native"] }
reqwest = { version = "0.12", features = ["multipart"] }
serde_json = "1"
tokio = { version = "1", features = ["fs", "macros", "rt-multi-thread", "sync"] }
