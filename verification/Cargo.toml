[package]
name = "microblog"
version = "0.1.0"
edition = "2021"
publish = false

[dependencies]
axum = "*"
base64 = "*"
rand = "*"
serde_json = "*"
tokio = { version = "*", default-features = false, features = ["macros", "net", "rt-multi-thread"] }
