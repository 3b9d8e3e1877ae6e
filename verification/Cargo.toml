[package]
name = "billing_notify"
version = "0.1.0"
edition = "2021"
publish = false

[dependencies]
chrono = "=0.4.45"
rusoto_core = { version = "=0.48.0", default-features = false, features = ["rustls"] }
rusoto_cloudwatch = { version = "=0.48.0", default-features = false, features = ["rustls"] }
rusoto_ssm = { version = "=0.48.0", default-features = false, features = ["rustls"] }
slack-hook = "=0.9.1"
tokio = { version = "*", features = ["rt"] }
