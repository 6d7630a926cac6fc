[package]
name = "moment_dispatch"
version = "0.1.0"
edition = "2021"
publish = false

[dependencies]
chrono = "=0.4.45"
tinyrand = "=0.5.0"
tinyrand-std = "=0.5.0"
serenity = "=0.11.7"
reddb = { version = "=0.2.3", features = ["ron_ser"] }
serde = { version = "=1.0.229", features = ["derive"] }
tokio = { version = "=1.54.1", features = ["full"] }
tracing = "=0.1.44"
tracing-subscriber = "=0.3.23"
config = "=0.13.4"
