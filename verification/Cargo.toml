[package]
name = "vmworker"
version = "0.1.0"
edition = "2021"
publish = false

[dependencies]
anyhow = "=1.0.104"
chrono = "=0.4.45"
dotenv = "=0.15.0"
env_logger = "=0.11.11"
log = "=0.4.34"
tokio = { version = "=1.53.2", features = ["macros", "rt-multi-thread", "process", "io-util", "time"] }
tokio-postgres = { version = "=0.7.18", features = ["with-chrono-0_4"] }
