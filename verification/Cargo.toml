[package]
name = "pullpiri"
version = "0.1.0"
edition = "2021"
publish = false

[dependencies]
hyper = { version = "0.14", features = ["client", "http1", "tcp"] }
serde = { version = "1", features = ["derive"] }
serde_yaml = "0.9"
thiserror = "1"
tokio = { version = "1", features = ["macros", "net", "process", "rt", "sync", "time"] }
tonic = { version = "0.11", default-features = false, features = ["codegen"] }
