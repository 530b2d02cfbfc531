[package]
name = "mcutie"
version = "0.1.0"
edition = "2021"
publish = false

[dependencies]
mqttrs = { version = "=0.4.1", default-features = false }
heapless = "=0.7.17"
hex = { version = "=0.4.3", default-features = false }
embassy-net = { version = "=0.9.1", features = ["tcp", "dns", "proto-ipv4", "medium-ethernet"] }
embassy-sync = "=0.8.0"
embassy-time = "=0.5.1"
embassy-futures = "=0.1.2"
embedded-io = "=0.7.1"
embedded-io-async = "=0.7.0"
serde = { version = "=1.0.229", default-features = false, features = ["derive"] }
serde-json-core = "=0.7.0"
once_cell = { version = "=1.21.4", default-features = false, features = ["critical-section"] }
pin-project = "=1.1.13"
thiserror = { version = "=2.0.21", default-features = false }
