[package]
name = "felica_pcsc"
version = "0.1.0"
edition = "2021"
publish = false

[dependencies]
anyhow = "1"
pcsc = "2"
tokio = { version = "1", features = ["macros", "rt-multi-thread", "time"] }
tracing = "0.1"
tracing-subscriber = "0.3"

[dev-dependencies]
nom = "7"
