[package]
name = "krkr_tts"
version = "0.1.0"
edition = "2021"
publish = false

[dependencies]
md5 = "=0.8.1"
anyhow = "*"
async-trait = "*"
chrono = "*"
clap = { version = "*", features = ["derive"] }
config = "*"
futures-util = "*"
lazy_static = "*"
reqwest = { version = "*", default-features = false, features = ["json", "query"] }
serde = { version = "*", features = ["derive"] }
serde_json = "*"
tokio = { version = "*", features = ["full"] }
