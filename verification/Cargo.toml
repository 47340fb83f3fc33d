[package]
name = "ssh_core"
version = "0.1.0"
edition = "2021"
publish = false

[dependencies]
russh = "*"
tokio = { version = "*", features = ["full"] }
uuid = { version = "*", features = ["v4"] }
serde = { version = "*", features = ["derive"] }
