[package]
name = "mocosmos"
version = "0.1.0"
edition = "2021"
publish = false

[dependencies]
bevy_app = "0.14"
bevy_ecs = "0.14"
crossbeam = "0.8"
macroquad = "0.4"
rapier2d = "0.22"
rusqlite = { version = "0.31", features = ["bundled"] }
