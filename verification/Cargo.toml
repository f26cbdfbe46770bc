[package]
name = "anchor_chain"
version = "0.1.0"
edition = "2021"
publish = false

[dependencies]
tera = { version = "*", default-features = false }
serde = { version = "*", features = ["derive"] }
serde_json = "*"
tokio = { version = "*", features = ["full"] }
futures = "*"
async-trait = "*"
base64 = "*"
aws-config = "*"
aws-sdk-bedrockruntime = "*"
aws-smithy-types = "*"
reqwest = { version = "*", default-features = false, features = ["json", "rustls-tls"] }
