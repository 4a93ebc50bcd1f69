[package]
name = "js_headers"
version = "0.1.0"
edition = "2021"
publish = false

[dependencies]
axum = { version = "0.7", default-features = false }
napi = { version = "2", default-features = false, features = ["napi6", "compat-mode"] }
