[package]
name = "sequencer_core"
version = "0.1.0"
edition = "2021"
publish = false

[dependencies]
sha2 = "0.10"
sha3 = "0.10"
chrono = { version = "0.4", default-features = false }
