[package]
name = "file_reader"
version = "0.1.0"
edition = "2021"
publish = false

[dependencies]
egui = { version = "0.29", default-features = false, features = ["default_fonts"] }
egui_extras = { version = "0.29", default-features = false }
walkdir = "2"
dirs = "5"
