[package]
name = "deploy_rs"
version = "0.1.0"
edition = "2021"
publish = false

[dependencies]
log = "0.4"
thiserror = "1"
tokio = { version = "1", features = ["macros", "process", "rt", "sync"] }
