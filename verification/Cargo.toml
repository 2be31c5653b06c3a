[package]
name = "voipire"
version = "0.1.0"
edition = "2021"
publish = false

[dependencies]
chrono = "*"
indicatif = "*"
tokio = { version = "*", features = ["macros", "rt-multi-thread", "time"] }
