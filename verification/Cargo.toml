[package]
name = "cloud_edit"
version = "0.1.0"
edition = "2021"
publish = false

[dependencies]
anyhow = "*"
aws-config = "*"
aws-sdk-s3 = "*"
clap = { version = "*", features = ["derive"] }
google-cloud-storage = "*"
notify = "*"
tempfile = "*"
tokio = { version = "*", features = ["fs", "macros", "rt-multi-thread", "sync", "time"] }
