[package]
name = "resend_mcp"
version = "0.1.0"
edition = "2021"
publish = false

[dependencies]
clap = { version = "*", features = ["derive", "env"] }
hyper-util = { version = "*", features = ["tokio", "server-auto", "service"] }
reqwest = { version = "*", default-features = false }
rmcp = { version = "*", features = ["server", "transport-io", "transport-streamable-http-server"] }
rmcp-openapi = "*"
serde_json = "*"
serde_yaml = "*"
tokio = { version = "*", features = ["full"] }
tracing = "*"
tracing-subscriber = { version = "*", features = ["env-filter", "fmt"] }
url = "*"
