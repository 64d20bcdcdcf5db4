[package]
name = "asim_desktop"
version = "0.1.0"
edition = "2021"
publish = false

[dependencies]
sha2 = "=0.10.9"
uuid = { version = "=1.29.0", features = ["v4"] }
rand = "=0.9.5"
chrono = { version = "=0.4.45", features = ["serde"] }
serde = { version = "=1.0.229", features = ["derive"] }
tracing = "=0.1.44"
tokio = { version = "=1.54.1", features = ["rt-multi-thread", "macros", "time"] }
aws-config = { version = "=1.13.0", default-features = false, features = ["rt-tokio", "behavior-version-latest"] }
aws-sdk-dynamodb = { version = "=1.136.0", default-features = false, features = ["rt-tokio", "behavior-version-latest"] }
