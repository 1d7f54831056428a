[package]
name = "watchboi"
version = "0.1.0"
edition = "2021"
publish = false

[dependencies]
anyhow = "1"
hyper = { version = "0.14", features = ["client", "server", "http1", "tcp"] }
notify = "*"
serde = { version = "1", features = ["derive"] }
serde_yaml = "*"
structopt = "0.3"
termcolor = "1"
tokio = { version = "1", features = ["full"] }
tokio-tungstenite = "*"
