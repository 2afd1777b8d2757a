[package]
name = "dirtcrunch"
version = "0.1.0"
edition = "2021"
publish = false

[dependencies]
serde_json = "*"
serde = { version = "*", features = ["derive"] }
serde_yaml = "*"
shiplift = { version = "*", default-features = false, features = ["unix-socket"] }
tokio = { version = "*", features = ["full"] }
tokio-util = { version = "*", features = ["io"] }
futures = "*"
bytes = "*"
async-trait = "*"
