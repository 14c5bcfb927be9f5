[package]
name = "console_client"
version = "0.1.0"
edition = "2021"
publish = false

[dependencies]
qrcode = { version = "=0.14.1", default-features = false }
zeroize = "=1.9.1"
clap = { version = "=4.6.7", features = ["derive"] }
clap_complete = { version = "4", features = ["unstable-dynamic"] }
bincode = "=1.3.3"
serde = { version = "=1.0.229", features = ["derive"] }
libc = "=0.2.191"
secrecy = "=0.10.3"
