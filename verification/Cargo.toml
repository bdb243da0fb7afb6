[package]
name = "raytracer"
version = "0.1.0"
edition = "2021"
publish = false

[dependencies]
eframe = { version = "=0.32.3", default-features = false, features = ["default_fonts", "glow", "x11"] }
egui = "=0.32.3"
image = { version = "=0.25.10", default-features = false, features = ["png", "jpeg"] }
nalgebra = "=0.34.2"
rayon = "=1.11.0"
serde = { version = "1", features = ["derive"] }
serde_yaml = "=0.9.34"
stl_io = "=0.8.6"
thiserror = "=2.0.21"
tobj = "=4.0.5"
