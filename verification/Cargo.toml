[package]
name = "cloud_upload"
version = "0.1.0"
edition = "2021"
publish = false

[dependencies]
aws-credential-types = "1"
aws-sdk-s3 = { version = "1", features = ["behavior-version-latest"] }
base64 = "0.22"
hmac = "0.12"
httpdate = "1"
reqwest = { version = "0.11", default-features = false, features = ["rustls-tls"] }
serde = { version = "1", features = ["derive"] }
sha1 = "0.10"
