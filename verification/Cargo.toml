[package]
name = "flight_sim"
version = "0.1.0"
edition = "2021"
publish = false

[dependencies]
eframe = { version = "=0.37.0", default-features = false, features = ["default_fonts", "glow", "x11"] }
egui_plot = "=0.38.0"
nalgebra = "=0.35.0"
rapier3d = "=0.30.1"
rand = "=0.9.5"
rand_distr = "=0.5.1"
serde = { version = "=1.0.229", features = ["derive"] }
serde_json = "=1.0.154"
rmp-serde = "=1.3.1"
strum = "=0.28.0"
strum_macros = "=0.28.0"
phastft = "=0.4.1"
anyhow = "=1.0.104"
