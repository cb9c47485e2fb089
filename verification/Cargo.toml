[package]
name = "kybe_config"
version = "0.1.0"
edition = "2021"
publish = false

[dependencies]
toml = "*"
chrono = "*"
directories = "*"
clap = { version = "*", features = ["derive"] }
clap_complete = "*"
ctrlc = "*"
parking_lot = "*"
anyhow = "*"
