[package]
name = "collection"
version = "0.1.0"
edition = "2021"
publish = false

[dependencies]
atomicwrites = "=0.4.4"
log = "=0.4.34"
parking_lot = "=0.12.5"
schemars = "=0.8.22"
serde = { version = "=1.0.229", features = ["derive"] }
serde_json = "=1.0.154"
