[package]
name = "lovr_rs"
version = "0.1.0"
edition = "2021"
publish = false

[dependencies]
glam = "*"
mlua = { version = "*", features = ["luajit", "module"] }
