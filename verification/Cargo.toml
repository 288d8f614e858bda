[package]
name = "modbot"
version = "0.1.0"
edition = "2021"
publish = false

[dependencies]
sha2 = "0.10"
base16ct = { version = "0.2", features = ["alloc"] }
serenity = "0.12"
tokio = { version = "1", features = ["macros", "rt-multi-thread"] }
clap = "4"
toml = "*"
serde = { version = "1", features = ["derive"] }
tracing = "0.1"
tracing-subscriber = "0.3"
async-trait = "0.1"
error-stack = "*"
