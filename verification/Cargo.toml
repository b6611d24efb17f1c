[package]
name = "croc"
version = "0.1.0"
edition = "2021"
publish = false

[dependencies]
aes-gcm = "0.10"
anyhow = "1"
byteorder = "1"
clap = { version = "4", features = ["derive", "env"] }
crossbeam-channel = "0.5"
dirs = "5"
ipnetwork = "0.20"
lazy_static = "1"
parking_lot = "0.12"
pbkdf2 = "0.12"
pnet = "0.35"
rand = "0.8"
sha2 = "0.10"
socket2 = "0.5"
spake2 = "0.4"
tokio = { version = "1", features = ["time", "io-util"] }
tracing = "0.1"
tracing-subscriber = "0.3"
