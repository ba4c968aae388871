[package]
name = "pingstat"
version = "0.1.0"
edition = "2021"
publish = false

[dependencies]
async-std = { version = "1", features = ["attributes"] }
chrono = "0.4"
clap = { version = "3.2", features = ["derive"] }
dns-lookup = "1"
futures = "0.3"
serde = { version = "1", features = ["derive"] }
serde_json = "1"
tabled = "0.8"
winping = "0.10"
