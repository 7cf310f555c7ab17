[package]
name = "auth0_client"
version = "0.1.0"
edition = "2021"
publish = false

[dependencies]
jsonwebtoken = "9"
serde = { version = "1", features = ["derive"] }
serde_json = "1"
reqwest = { version = "0.12", default-features = false, features = ["json"] }
async-trait = "0.1"

[dev-dependencies]
rsa = "0.9"
rand = "0.8"
base64 = "0.22"
