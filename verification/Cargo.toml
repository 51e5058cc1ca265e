[package]
name = "tower_surf"
version = "0.1.0"
edition = "2021"
publish = false

[dependencies]
base64 = "*"
hmac = "*"
sha2 = "*"
rand = "*"
http = "*"
tower-cookies = "*"
tower-layer = "*"
tower-service = "*"
futures-util = "*"
async-trait = "*"
axum-core = "*"
tracing = "*"
thiserror = "*"
