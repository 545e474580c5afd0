[package]
name = "libninja"
version = "0.1.0"
edition = "2021"
publish = false

[dependencies]
serde_yaml = "=0.9.34"
serde_json = "=1.0.151"
openapiv3-extended = { version = "=6.0.1", features = ["v2"] }
convert_case = "=0.12.0"
clap = { version = "=4.6.7", features = ["derive"] }
