[package]
name = "fileshare"
version = "0.1.0"
edition = "2021"
publish = false

[dependencies]
serde_json = "*"
tokio = { version = "*", features = ["full"] }
tokio-tungstenite = "*"
tungstenite = "*"
futures-util = "*"
url = "*"
colored = "*"
crossterm = "*"
indicatif = "*"
local-ip-address = "*"
