[package]
name = "plato_core"
version = "0.1.0"
edition = "2021"
publish = false

[dependencies]
libremarkable = "*"
chrono = "*"
fnv = "*"
serde = { version = "*", features = ["derive"] }
serde_json = "*"
toml = "*"
