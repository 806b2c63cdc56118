[package]
name = "mcp_manager"
version = "0.1.0"
edition = "2021"
publish = false

[dependencies]
dashmap = "*"
lazy_static = "1"
napi = { version = "2", default-features = false, features = ["napi4", "tokio_rt"] }
napi-derive = "2"
rmcp = { version = "0.1", features = ["client", "transport-child-process"] }
serde = { version = "1", features = ["derive"] }
serde_json = "1"
sysinfo = "*"
thiserror = "1"
tokio = { version = "1", features = ["full"] }
tracing = "0.1"
tracing-subscriber = { version = "0.3", features = ["env-filter"] }
