[package]
name = "tango_core"
version = "0.1.0"
edition = "2021"
publish = false

[dependencies]
rand = "0.8.5"
rand_pcg = "0.3.1"
anyhow = "1"
log = "0.4"
parking_lot = "0.12"
tokio = { version = "1", features = ["sync", "rt"] }
