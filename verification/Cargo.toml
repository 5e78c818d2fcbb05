[package]
name = "chessboard"
version = "0.1.0"
edition = "2021"
publish = false

[dependencies]
owlchess = "=0.4.1"
eframe = { version = "=0.20.1", default-features = false, features = ["glow"] }
egui_extras = { version = "=0.20.0", features = ["svg"] }
