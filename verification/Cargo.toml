[package]
name = "keplerian"
version = "0.2.0"
edition = "2021"
publish = false

[dependencies]
qtty = { version = "=0.8.6", features = ["satellite"] }
affn = "=0.12.1"
thiserror = "=2.0.21"
