[package]
name = "game_frontend"
version = "0.1.0"
edition = "2021"
publish = false

[dependencies]
bevy = { version = "=0.15.3", default-features = false, features = ["bevy_state", "bevy_ui", "bevy_window"] }
webbrowser = "=1.2.5"
