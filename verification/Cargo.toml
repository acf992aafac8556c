[package]
name = "zetteln"
version = "0.1.0"
edition = "2021"
publish = false

[dependencies]
axum = "*"
color-eyre = "*"
mysql_async = "*"
serde = { version = "*", features = ["derive"] }
tokio = { version = "*", features = ["rt-multi-thread", "macros", "net"] }
tracing = "*"
tracing-subscriber = "*"
