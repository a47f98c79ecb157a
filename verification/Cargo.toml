[package]
name = "foxy"
version = "0.1.0"
edition = "2021"
publish = false

[dependencies]
arraydeque = "0.5"
quanta = "0.12"
byteorder = "1"
crossbeam = "0.8"
tracing = "0.1"
tracing-subscriber = { version = "0.3", features = ["env-filter"] }
ash = "0.38"
ash-window = "0.13"
raw-window-handle = "0.6"
bytemuck = "1"
anyhow = "1"
