[package]
name = "bankbot"
version = "0.1.0"
edition = "2021"
publish = false

[dependencies]
indexmap = "=2.14.2"
async-std = "=1.13.2"
uuid = { version = "=1.27.0", features = ["v4"] }
hmac = "=0.13.0"
sha2 = "=0.11.0"
toml_edit = "=0.25.15"
git2 = "=0.21.0"
rhai = "=1.26.1"
octocrab = "=0.40.0"
jsonwebtoken = "=9.3.1"
tokio = { version = "*", features = ["rt"] }
