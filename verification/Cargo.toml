[package]
name = "wren_bridge"
version = "0.1.0"
edition = "2021"
publish = false

[dependencies]
dirs = "*"
static_assertions = "1"
tokio = { version = "1", default-features = false, features = ["rt", "time", "sync", "macros"] }
wren-sys = "*"
