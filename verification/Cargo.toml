[package]
name = "unwarp"
version = "2.0.0"
edition = "2021"
publish = false

[dependencies]
serde = "1"
warp = "0.3"

[dev-dependencies]
tokio = { version = "1", features = ["rt"] }
