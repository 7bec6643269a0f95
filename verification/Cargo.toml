[package]
name = "songdl"
version = "0.1.0"
edition = "2021"
publish = false

[dependencies]
anyhow = "1"
eframe = { version = "0.22", default-features = false, features = ["default_fonts", "glow"] }
egui = "0.22"
egui_extras = "0.22"
egui-notify = "0.7"
egui-phosphor = "0.2"
figment = { version = "0.10", features = ["toml"] }
image = { version = "0.24", default-features = false, features = ["jpeg", "png", "webp"] }
kira = { version = "0.8", default-features = false, features = ["mp3", "ogg", "flac", "wav"] }
parking_lot = "0.12"
poll-promise = "0.2"
regex = "1"
serde = { version = "1", features = ["derive"] }
serde_json = "1"
tempfile = "3"
toml = "0.7"
