[package]
name = "verge"
version = "0.1.0"
edition = "2021"
publish = false

[dependencies]
sha2 = "=0.10.9"
serde = { version = "=1.0.229", features = ["derive"] }
serde_json = "=1.0.154"
tungstenite = "=0.30.0"
libc = "=0.2.191"
fs2 = "=0.4.3"
sysproxy = "*"
