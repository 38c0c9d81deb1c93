[package]
name = "ghost"
version = "0.1.0"
edition = "2021"
publish = false

[dependencies]
rand = "0.8"
warp = "0.3"
tokio = { version = "1", features = ["full"] }
clap = { version = "3", features = ["derive", "env"] }
chrono = "0.4"
http = "0.2"
pretty_env_logger = "0.4"
