[package]
name = "loadgen"
version = "0.1.0"
edition = "2021"
publish = false

[dependencies]
serde_json = "1"
serde = { version = "1", features = ["derive"] }
tokio = { version = "1", features = ["macros", "rt-multi-thread", "sync", "time"] }
reqwest = { version = "0.12", default-features = false, features = ["json"] }
clap = { version = "4", features = ["derive"] }
confique = "*"
crossterm = "0.25"
tui = "0.19"
futures = "0.3"
tracing = "0.1"
tracing-subscriber = "0.3"
