[package]
name = "portfolio_content"
version = "0.1.0"
edition = "2021"
publish = false

[dependencies]
once_cell = "1"
serde = { version = "1", features = ["derive"] }
serde_yaml = "0.9"
yew = { version = "0.21", features = ["csr"] }
yew-router = "0.18"
