[package]
name = "la_kill_em"
version = "0.1.0"
edition = "2021"
publish = false

[dependencies]
bevy = { version = "0.8", default-features = false, features = ["bevy_asset", "bevy_winit", "render", "png", "x11"] }
bevy_asset_loader = "0.12"
bevy-inspector-egui = "0.12"
bevy_kira_audio = "0.12"
