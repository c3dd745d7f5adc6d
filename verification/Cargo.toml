[package]
name = "region_api"
version = "0.1.0"
edition = "2021"
publish = false

[dependencies]
serde = { version = "1", features = ["derive"] }
serde_json = "1"
sqlite = "*"
tokio = { version = "1", features = ["macros", "rt-multi-thread"] }
warp = "0.3"
