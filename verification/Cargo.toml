[package]
name = "bevy_init_marker"
version = "0.1.0"
edition = "2021"
publish = false

[dependencies]
bevy_ecs = "0.13"
bevy_log = "0.13"

[dev-dependencies]
bevy_app = "0.13"
