[package]
name = "act_zero"
version = "0.4.0"
edition = "2021"
publish = false

[dependencies]
futures = "0.3"
tokio = { version = "1", features = ["rt", "time"] }
serde = { version = "1", features = ["derive"] }
