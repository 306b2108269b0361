[package]
name = "sdf_modeler"
version = "0.1.0"
edition = "2021"
publish = false

[dependencies]
bytemuck = { version = "1", features = ["derive"] }
eframe = { version = "0.29", default-features = false, features = ["wgpu", "default_fonts", "x11", "wayland"] }
egui = "0.29"
glam = "0.29"
parking_lot = "0.12"
rfd = "0.15"
rhai = { version = "1", features = ["f32_float", "sync"] }
