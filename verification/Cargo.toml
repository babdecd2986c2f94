[package]
name = "thespis_remote"
version = "0.1.0"
edition = "2021"
publish = false

[dependencies]
rand = "=0.8.8"
twox-hash = "=1.6.3"
futures = "=0.3.34"
serde = { version = "=1.0.229", features = ["derive"] }
serde_cbor = "=0.11.2"
once_cell = "=1.21.4"
parking_lot = "=0.12.5"
futures_ringbuf = { version = "=0.4.0", features = ["sketchy"] }
