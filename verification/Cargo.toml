[package]
name = "diagrammer"
version = "0.1.0"
edition = "2021"
publish = false

[dependencies]
axum = { version = "0.7", features = ["ws"] }
bcrypt = "0.15"
futures-util = "0.3"
jsonwebtoken = "9"
local-ip-address = "0.6"
log = "0.4"
nanoid = "0.4"
serde = { version = "1", features = ["derive"] }
serde_json = "1"
tokio = { version = "1", features = ["full"] }
tower-http = { version = "0.5", features = ["cors"] }
