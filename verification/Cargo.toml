[package]
name = "winmixer"
version = "0.1.0"
edition = "2021"
publish = false

[dependencies]
napi = "=3.14.2"
napi-derive = "=3.6.12"
serde = { version = "=1.0.229", features = ["derive"] }
serde_json = "=1.0.151"
windows-icons = "=0.2.1"
winmix = "=0.1.3"
