[package]
name = "static_backend"
version = "0.1.0"
edition = "2021"
publish = false

[dependencies]
candid = "=0.10.39"
chrono = { version = "=0.4.45", default-features = false, features = ["std"] }
handlebars = "=6.4.4"
hex = "=0.4.3"
ic-asset-certification = "=3.2.0"
ic-cdk = "=0.16.1"
ic-cdk-timers = "=0.10.1"
ic-http-certification = "=3.2.0"
include_dir = "=0.7.4"
num-format = "=0.4.4"
num-traits = "=0.2.19"
serde = { version = "=1.0.229", features = ["derive"] }
serde_json = "=1.0.154"

[dev-dependencies]
base64 = "=0.22.1"
ic-certification = "=3.2.0"
serde_cbor = "=0.11.2"
sha2 = "=0.10.9"
