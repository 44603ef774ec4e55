[package]
name = "queue_stopping"
version = "0.1.0"
edition = "2021"
publish = false

[dependencies]
winit = { version = "=0.29.15", default-features = false, features = ["x11"] }
tracing = { version = "=0.1.44", default-features = false, features = ["std"] }
tracing-subscriber = { version = "=0.3.23", default-features = false, features = ["fmt"] }
