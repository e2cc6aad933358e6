[package]
name = "hello_lambda"
version = "0.1.0"
edition = "2021"
publish = false

[dependencies]
lambda_runtime = "*"
log = "0.4"
serde = { version = "1", features = ["derive"] }
serde_json = "1"
simple-error = "*"
simple_logger = "*"
tokio = { version = "1", features = ["macros", "rt-multi-thread"] }
