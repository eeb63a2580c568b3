[package]
name = "onsen_compo"
version = "0.1.0"
edition = "2021"
publish = false

[dependencies]
image = "*"
base32 = "*"
rand = "0.8"
uuid = { version = "*", features = ["v4"] }
serde = { version = "*", features = ["derive"] }
jsonwebtoken = "*"
structopt = "*"
mime = "*"

[dev-dependencies]
serde_json = "*"
