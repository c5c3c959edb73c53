[package]
name = "browser_automation"
version = "0.1.0"
edition = "2021"
publish = false

[dependencies]
base64 = "*"
serde_json = "*"
thirtyfour = "*"
thiserror = "*"
tokio = { version = "*", features = ["rt"] }
