[package]
name = "e_to_e_msgr"
version = "0.1.0"
edition = "2021"
publish = false

[dependencies]
serde_json = "=1.0.151"
keyring = { version = "=3.6.3", default-features = false }
uuid = { version = "=1.27.0", features = ["v4"] }
serde = { version = "=1.0.229", features = ["derive"] }
csv = "=1.4.0"
reqwest = { version = "=0.13.5", default-features = false, features = ["json"] }
tokio = { version = "=1.53.2", features = ["full"] }
tokio-tungstenite = "=0.30.0"
tungstenite = "=0.30.0"
futures-util = "=0.3.34"
tokio-rusqlite = { version = "=0.8.0", features = ["bundled"] }
