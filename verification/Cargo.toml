[package]
name = "gid"
version = "0.1.0"
edition = "2021"
publish = false

[dependencies]
argh = "*"
base64 = "*"
chrono = "*"
colored = "*"
dirs = "*"
google-tasks1 = "*"
serde = { version = "*", features = ["derive"] }
serde_json = "*"
tabled = "*"
tokio = { version = "*", features = ["macros", "rt-multi-thread"] }
toml = "*"
