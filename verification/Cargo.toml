[package]
name = "delamain"
version = "0.1.0"
edition = "2021"
publish = false

[dependencies]
persy = "*"
poise = "0.5"
tokio = { version = "1", features = ["macros", "rt-multi-thread"] }
color-eyre = "*"
tracing = "*"
tracing-subscriber = "*"
