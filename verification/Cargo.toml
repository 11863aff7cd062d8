[package]
name = "vine_service"
version = "0.1.0"
edition = "2021"
publish = false

[dependencies]
sp-core = "*"
serde_json = "1"
serde = { version = "1", features = ["derive"] }
clap = { version = "4", features = ["derive"] }
tokio = { version = "1", features = ["macros", "rt-multi-thread"] }
log = "0.4"
