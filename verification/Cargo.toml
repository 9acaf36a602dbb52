[package]
name = "stress_fleet"
version = "0.1.0"
edition = "2021"
publish = false

[dependencies]
async-std = { version = "=1.13.2", features = ["attributes"] }
clap = { version = "=4.6.7", features = ["derive"] }
firebase-rs = "=2.2.5"
reqwest = { version = "=0.13.5", default-features = false, features = ["form", "json"] }
serde = { version = "=1.0.229", features = ["derive"] }
serde_json = "=1.0.151"
serde_yaml = "=0.9.34"
sysinfo = "=0.39.6"
