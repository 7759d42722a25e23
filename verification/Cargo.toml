[package]
name = "authgate"
version = "0.1.0"
edition = "2021"
publish = false

[dependencies]
base64 = "*"
tracing = "*"
tracing-subscriber = { version = "*", features = ["env-filter"] }
serde = { version = "*", features = ["derive"] }
config = { version = "*", default-features = false, features = ["yaml"] }
clap = { version = "*", features = ["derive"] }
dotenvy = "*"
tokio = { version = "*", features = ["rt-multi-thread", "net", "time", "io-util", "macros"] }
