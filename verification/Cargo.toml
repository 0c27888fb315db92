[package]
name = "themer"
version = "0.1.0"
edition = "2021"
publish = false

[dependencies]
anyhow = "1"
clap = { version = "4", features = ["derive"] }
colored = "*"
dirs = "*"
serde = { version = "1", features = ["derive"] }
serde_json = "1"
tera = "1"
toml = "*"

[dev-dependencies]
tempfile = "*"
