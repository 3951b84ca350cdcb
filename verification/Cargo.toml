[package]
name = "animation_tree"
version = "0.1.0"
edition = "2021"
publish = false

[dependencies]
bevy = { version = "=0.10.1", default-features = false, features = ["bevy_asset", "bevy_core_pipeline", "bevy_render", "bevy_sprite", "bevy_winit", "png", "x11"] }
bevy_ecs_ldtk = { version = "=0.6.0", default-features = false }
bevy_prototype_debug_lines = "=0.10.2"
bevy_rapier2d = { version = "=0.21.0", default-features = false, features = ["async-collider", "dim2"] }
serde = { version = "=1.0.229", features = ["derive"] }
serde_yaml = "=0.9.34"
