[package]
name = "redlab"
version = "0.1.0"
edition = "2021"
publish = false

[dependencies]
bevy = { version = "=0.17.3", default-features = false, features = ["std", "async_executor", "multi_threaded", "bevy_asset", "bevy_color", "bevy_core_pipeline", "bevy_gizmos", "bevy_log", "bevy_mesh_picking_backend", "bevy_pbr", "bevy_picking", "bevy_render", "bevy_sprite", "bevy_sprite_render", "bevy_window", "bevy_winit", "png", "x11"] }
bevy_prng = { version = "=0.12.1", features = ["wyrand"] }
bevy_rand = "=0.12.1"
rand_core = "=0.9.5"
