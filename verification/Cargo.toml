[package]
name = "lambda_adapter"
version = "0.1.0"
edition = "2021"
publish = false

[dependencies]
axum = "*"
bytes = "*"
futures = "*"
http = "*"
lambda_http = "*"
