[package]
name = "ic_nns_governance"
version = "0.1.0"
edition = "2021"
publish = false

[dependencies]
candid = "=0.9.11"
comparable = { version = "=0.5.7", features = ["derive"] }
prost = "=0.11.9"
rand = "=0.8.8"
serde = { version = "=1.0.229", features = ["derive"] }
strum_macros = "=0.24.3"
