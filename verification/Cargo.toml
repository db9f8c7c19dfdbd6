[package]
name = "wasm_editor"
version = "0.1.0"
edition = "2021"
publish = false

[dependencies]
tempfile = "=3.27.0"
eframe = { version = "=0.36.2", default-features = false, features = ["glow", "x11", "default_fonts"] }
egui = "=0.36.2"
rfd = "=0.17.2"
