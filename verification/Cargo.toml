[package]
name = "httpd_core"
version = "0.1.0"
edition = "2021"
publish = false

[dependencies]
anyhow = "*"
async-compression = { version = "*", features = ["tokio", "gzip"] }
tokio = { version = "*", features = ["rt", "rt-multi-thread", "macros", "net", "io-util", "fs"] }
