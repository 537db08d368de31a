[package]
name = "night_fishing"
version = "0.1.0"
edition = "2021"
publish = false

[dependencies]
getrandom = "=0.3.4"
serde = { version = "=1.0.229", features = ["derive"] }
serde_json = "=1.0.154"
bevy = { version = "=0.19.1", default-features = false, features = ["std", "bevy_state", "keyboard", "bevy_asset", "bevy_window"] }
