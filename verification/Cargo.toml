[package]
name = "savvy"
version = "0.1.0"
edition = "2021"
publish = false

[dependencies]
tokio = { version = "1", features = ["macros", "process", "rt-multi-thread", "sync"] }
serde = { version = "1", features = ["derive"] }
serde_json = "1"
dirs = "*"
reqwest = { version = "*", default-features = false, features = ["json"] }
