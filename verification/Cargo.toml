[package]
name = "oauth2_agent"
version = "0.1.0"
edition = "2021"
publish = false

[dependencies]
openidconnect = "2"
oauth2 = "4"
url = "2"
serde = { version = "1", features = ["derive"] }
serde_json = "1"
yew = "0.21"
gloo-utils = "0.2"

[dev-dependencies]
chrono = "0.4"
