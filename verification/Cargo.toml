[package]
name = "links"
version = "0.1.0"
edition = "2021"
publish = false

[dependencies]
mime_guess = "*"
nanoid = "*"
axum = "*"
tokio = { version = "*", features = ["full"] }
serde = { version = "*", features = ["derive"] }
