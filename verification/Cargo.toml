[package]
name = "libnoir_ffi"
version = "0.1.0"
edition = "2021"
publish = false

[dependencies]
barretenberg-rs = { version = "=6.0.0", default-features = false, features = ["native"] }
base64 = "=0.23.1"
flate2 = "=1.1.10"
hex = "=0.4.3"
once_cell = "=1.21.4"
rmp-serde = "=1.3.1"
serde = { version = "=1.0.229", features = ["derive"] }
serde_bytes = "=0.11.19"
serde_json = "=1.0.154"
which = "=8.0.6"
