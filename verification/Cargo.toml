[package]
name = "elementipelago"
version = "0.1.0"
edition = "2021"
publish = false

[dependencies]
bevy = { version = "0.17", default-features = false, features = ["bevy_asset"] }
bevy_embedded_assets = "0.14"
crossbeam-channel = "0.5"
dirs = "6"
float-ord = "0.3"
futures = "0.3"
rand = "0.9"
serde = { version = "1", features = ["derive"] }
serde_json = "1"
serde_repr = "0.1"
tokio = { version = "1", features = ["rt", "time"] }
url = "2"
yawc = "0.2"
