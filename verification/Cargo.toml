[package]
name = "hetu"
version = "0.1.0"
edition = "2021"
publish = false

[dependencies]
anyhow = "1"
async-trait = "0.1"
chrono = "0.4"
clap = { version = "3", features = ["derive"] }
env_logger = "*"
futures = "0.3"
futures-util = "0.3"
http = "0.2"
hyper = { version = "0.14", features = ["full"] }
log = "0.4"
serde = { version = "1", features = ["derive"] }
serfig = "*"
tempfile = "3"
tokio = { version = "1", features = ["full"] }
tokio-stream = { version = "0.1", features = ["net"] }
tower = { version = "0.4", features = ["util"] }
uuid = { version = "1", features = ["v4"] }
