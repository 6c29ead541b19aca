[package]
name = "testing_framework_runner"
version = "0.1.0"
edition = "2021"
publish = false

[dependencies]
sha2 = "0.10"
serde = { version = "1", features = ["derive"] }
serde_yaml = "0.9"
tempfile = "3"
which = "*"
k8s-openapi = { version = "*", features = ["latest"] }
