[package]
name = "ssh-mcp-rs"
version = "0.1.0"
edition = "2021"
publish = false

[dependencies]
anyhow = "1"
async-trait = "0.1"
base64 = "0.22"
clap = { version = "4", features = ["derive"] }
dirs = "*"
regex = "1"
rmcp = { version = "*", features = ["server", "macros", "transport-io"] }
russh = { version = "*", default-features = false, features = ["ring", "rsa", "flate2"] }
russh-sftp = "*"
serde = { version = "1", features = ["derive"] }
tempfile = "3"
thiserror = "*"
tokio = { version = "1", features = ["full"] }
toml = "*"
tracing = "0.1"
tracing-subscriber = { version = "0.3", features = ["env-filter"] }
