[package]
name = "nu_pipes"
version = "0.1.0"
edition = "2021"
publish = false

[dependencies]
petname = "=2.0.2"
nu-plugin = "=0.113.1"
nu-protocol = "=0.113.1"
serde = { version = "=1.0.229", features = ["derive"] }
thiserror = "=2.0.21"
