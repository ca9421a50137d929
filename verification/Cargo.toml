[package]
name = "rair"
version = "0.1.0"
edition = "2021"
publish = false

[dependencies]
anyhow = "*"
cargo_metadata = "*"
chrono = "*"
clap = { version = "*", features = ["derive"] }
command-group = "*"
crossterm = "*"
globset = "*"
notify = "*"
serde = { version = "*", features = ["derive"] }
toml = "*"
