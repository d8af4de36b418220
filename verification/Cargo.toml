[package]
name = "openapi_insert"
version = "0.1.0"
edition = "2021"
publish = false

[dependencies]
anyhow = "*"
clap = { version = "*", features = ["derive"] }
convert_case = "=0.12.0"
indexmap = "*"
inquire = { version = "*", features = ["editor"] }
openapiv3-extended = "=6.0.1"
serde_json = "*"
serde_yaml = "*"
