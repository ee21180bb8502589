[package]
name = "reliquary"
version = "0.1.0"
edition = "2021"
publish = false

[dependencies]
rusqlite = { version = "0.37", features = ["bundled"] }
chrono = "0.4"
directories = "6"
tabled = "0.20"
bevy = { version = "0.16", default-features = false, features = ["bevy_log"] }
