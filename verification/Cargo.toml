[package]
name = "weaver_semconv"
version = "0.1.0"
edition = "2021"
publish = false

[dependencies]
serde = { version = "1", features = ["derive"] }
serde_yaml = "0.9"
schemars = "0.8"
ordered-float = { version = "4", features = ["serde"] }
