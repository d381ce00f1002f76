[package]
name = "mcp_server_gitlab"
version = "0.1.0"
edition = "2021"
publish = false

[dependencies]
zed_extension_api = "*"
serde = { version = "*", features = ["derive"] }
serde_json = "*"
schemars = "*"
