[package]
name = "dannesk"
version = "0.3.0"
edition = "2021"
publish = false

[dependencies]
uuid = { version = "1", features = ["v4"] }
zeroize = "1"
serde = { version = "1", features = ["derive"] }
serde_json = "1"
chrono = "0.4"
bip39 = "2"
rand = "0.9"
ripple-address-codec = "*"
