[package]
name = "chess_bot_gui"
version = "0.1.0"
edition = "2021"
publish = false

[dependencies]
chess = "3.2"
eframe = "0.19"
egui = "0.19"
egui_extras = { version = "0.19", features = ["image"] }
image = { version = "0.24", default-features = false, features = ["png"] }
