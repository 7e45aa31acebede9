[package]
name = "testsys"
version = "0.1.0"
edition = "2021"
publish = false

[dependencies]
base64 = "0.13"
fastrand = "1"
handlebars = "4"
log = "0.4"
serde = { version = "1", features = ["derive"] }
serde_json = "1"
serde_yaml = "0.9"
toml = "0.5"
aws-config = "0.51"
aws-sdk-ec2 = "0.21"
tokio = { version = "1", features = ["macros", "rt-multi-thread"] }
