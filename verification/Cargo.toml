[package]
name = "haptics_sdk"
version = "0.1.0"
edition = "2021"
publish = false

[dependencies]
serde = { version = "1", features = ["derive"] }
serde_json = "1"
itertools = "*"
realfft = "3"
hound = "3"
dasp_sample = "0.11"
symphonia = { version = "0.5", features = ["all"] }
thiserror = "*"
