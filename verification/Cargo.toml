[package]
name = "egui_nodes"
version = "0.1.0"
edition = "2021"
publish = false

[dependencies]
egui = { version = "*", default-features = false }
educe = { version = "*", default-features = false, features = ["Debug", "Default"] }
