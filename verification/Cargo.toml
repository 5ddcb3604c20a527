[package]
name = "music_player"
version = "0.1.0"
edition = "2021"
publish = false

[dependencies]
rodio = { version = "=0.17.3", default-features = false, features = ["mp3"] }
serde = { version = "=1.0.229", features = ["derive"] }
symphonia = { version = "=0.5.5", default-features = false, features = ["mp3"] }
