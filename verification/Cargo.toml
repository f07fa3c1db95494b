[package]
name = "trovo"
version = "0.1.0"
edition = "2021"
publish = false

[dependencies]
serde_json = "*"
async-tungstenite = { version = "*", features = ["tokio-runtime"] }
tokio = { version = "*", features = ["rt", "sync", "time", "macros"] }
tokio-util = "*"
futures = "*"
reqwest = { version = "*", default-features = false, features = ["json"] }
serde = { version = "*", features = ["derive"] }
serde_repr = "*"
thiserror = "*"
chrono = "*"
serde_with = { version = "*", features = ["chrono_0_4"] }
async-trait = "*"
