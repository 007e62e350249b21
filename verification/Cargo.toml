[package]
name = "kcsdi_gui"
version = "0.1.0"
edition = "2021"
publish = false

[dependencies]
directories = "=6.0.0"
egui = "=0.37.0"
eframe = { version = "=0.37.0", default-features = false, features = ["default_fonts", "glow", "x11"] }
serde = { version = "=1.0.229", features = ["derive"] }
toml = "=1.1.8"
log = "=0.4.35"
