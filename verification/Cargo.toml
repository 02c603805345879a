[package]
name = "bevy_playground"
version = "0.1.0"
edition = "2021"
publish = false

[dependencies]
uuid = { version = "1", features = ["v4"] }
zerocopy = "0.8"
noise = "0.9"
itertools = "0.13"
crossbeam-channel = "0.5"
encase = "0.10"
