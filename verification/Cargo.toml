[package]
name = "delta_reconcile"
version = "0.1.0"
edition = "2021"
publish = false

[dependencies]
anyhow = "*"
aws_lambda_events = { version = "*", default-features = false, features = ["s3"] }
deltalake = { version = "*", default-features = false, features = ["rustls"] }
lambda_runtime = { version = "*", default-features = false }
log = "*"
pretty_env_logger = "*"
serde_json = "*"
tokio = { version = "*", features = ["macros", "rt-multi-thread"] }
urlencoding = "*"
