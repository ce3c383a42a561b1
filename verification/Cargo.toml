[package]
name = "user_directory"
version = "0.1.0"
edition = "2021"
publish = false

[dependencies]
juniper = { version = "0.14", default-features = false }
hyper = "0.13"
tokio = { version = "0.2", features = ["macros", "rt-threaded"] }
futures = "0.3"
serde_json = "1"
