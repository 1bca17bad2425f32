[package]
name = "gnosis_vpn_app"
version = "0.1.0"
edition = "2021"
publish = false

[dependencies]
dark-light = "1"
serde = { version = "1", features = ["derive"] }
