[package]
name = "ec2_manager_gui"
version = "0.1.0"
edition = "2021"
publish = false

[dependencies]
eframe = { version = "0.29", default-features = false, features = ["default_fonts", "glow", "x11"] }
portable-pty = "0.8"
vt100 = "0.15"
