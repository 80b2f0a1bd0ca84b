[package]
name = "template_bridge"
version = "0.1.0"
edition = "2021"
publish = false

[dependencies]
minijinja = { version = "*", features = ["loader"] }
axum = "*"
tokio = { version = "*", features = ["rt-multi-thread", "macros", "net"] }
