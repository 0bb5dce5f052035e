[package]
name = "aquestalk_proxy"
version = "0.1.0"
edition = "2021"
publish = false

[dependencies]
base64 = "0.13"
encoding_rs = "0.8"
getopts = "0.2"
libloading = "0.7"
optional_take = "*"
serde = { version = "1", features = ["derive"] }
serde_json = "1"
threadpool = "1"
