[package]
name = "bazaar_realm_client"
version = "0.1.0"
edition = "2021"
publish = false

[dependencies]
base64 = "0.13"
bincode = "1.3"
chrono = { version = "0.4", features = ["serde"] }
dirs = "3.0"
http-api-problem = "0.17"
log = "0.4"
reqwest = { version = "0.10", default-features = false, features = ["blocking"] }
serde = { version = "1.0", features = ["derive"] }
serde_json = "1.0"
simple-logging = "2.0"
uuid = { version = "0.8", features = ["v4"] }
