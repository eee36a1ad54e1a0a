[package]
name = "signed_connectors"
version = "0.1.0"
edition = "2021"
publish = false

[dependencies]
base64 = "0.22"
pem = "3"
ring = "0.17"
url = "2"
serde = { version = "1", features = ["derive"] }
serde_json = "1"
time = { version = "0.3", features = ["formatting"] }
