[package]
name = "atopio_extra"
version = "0.1.0"
edition = "2021"
publish = false

[dependencies]
base64 = "0.22"
serde = { version = "1", features = ["derive"] }
serde_json = "1"
surrealdb = { version = "=1.5.6", default-features = false }
