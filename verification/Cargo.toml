[package]
name = "spammer_bot"
version = "0.1.0"
edition = "2021"
publish = false

[dependencies]
clap = "2.33"
serenity = { version = "0.10", default-features = false, features = ["client", "gateway", "model", "rustls_backend"] }
tokio = { version = "1", features = ["macros", "rt-multi-thread", "time"] }
