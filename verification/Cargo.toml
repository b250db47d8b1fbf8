[package]
name = "bevy_vox"
version = "0.1.0"
edition = "2021"
publish = false

[dependencies]
bevy = { version = "=0.17.3", default-features = false, features = ["std", "bevy_asset", "bevy_pbr", "bevy_scene"] }
dot_vox = "=5.2.0"
thiserror = "=2.0.21"
