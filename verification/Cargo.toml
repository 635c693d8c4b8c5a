[package]
name = "upload_limit"
version = "0.1.0"
edition = "2021"
publish = false

[dependencies]
async-trait = "=0.1.92"
futures-io = "=0.3.34"
futures-util = { version = "=0.3.34", features = ["io"] }
pin-project = "=1.1.13"
tide = "=0.16.0"
