[package]
name = "mdpage"
version = "0.1.0"
edition = "2021"
publish = false

[dependencies]
markdown = "=1.0.0"
minifier = { version = "=0.4.0", default-features = false }
serde = { version = "1", features = ["derive"] }
toml = "=1.1.8"
url = { version = "=2.5.8", features = ["serde"] }
