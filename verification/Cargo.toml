[package]
name = "httpmcp_rust"
version = "0.1.0"
edition = "2021"
publish = false

[dependencies]
actix-multipart = "*"
actix-web = "*"
actix-web-lab = "*"
async-stream = "*"
async-trait = "*"
futures = "*"
serde = { version = "*", features = ["derive"] }
serde_json = "*"
thiserror = "*"
tokio = { version = "*", features = ["sync", "rt", "rt-multi-thread", "macros"] }
tracing = "*"
uuid = { version = "*", features = ["v4"] }
