[package]
name = "license_gateway"
version = "0.1.0"
edition = "2021"
publish = false

[dependencies]
lambda_http = "*"
serde = "1"
serde_json = "1"
