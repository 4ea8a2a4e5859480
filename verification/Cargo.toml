[package]
name = "tokogate"
version = "0.1.0"
edition = "2021"
publish = false

[dependencies]
serde_json = "1"
anyhow = "1"
build_id = "*"
http-body-util = "0.1"
hyper = { version = "1", features = ["http1", "server"] }
hyper-util = { version = "0.1", features = ["tokio"] }
once_cell = "1"
reqwest = { version = "0.12", default-features = false }
tokio = { version = "1", features = ["macros", "net", "rt-multi-thread"] }
