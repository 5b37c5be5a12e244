[package]
name = "gaze_tracker"
version = "0.1.0"
edition = "2021"
publish = false

[dependencies]
rustface = "=0.1.7"
nokhwa = { version = "0.10", features = ["input-native"] }
