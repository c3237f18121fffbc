[package]
name = "cofield_receiver"
version = "0.1.0"
edition = "2021"
publish = false

[dependencies]
rand = "*"
anyhow = "*"
chrono = "*"
clap = { version = "*", features = ["derive"] }
console = "*"
csv = "*"
dotenv = "*"
futures = "*"
serde = { version = "*", features = ["derive"] }
serde_json = "*"
tokio = { version = "*", features = ["rt-multi-thread", "macros", "sync"] }
