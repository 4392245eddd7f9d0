[package]
name = "c41_ui"
version = "0.1.0"
edition = "2021"
publish = false

[dependencies]
rusqlite = { version = "*", features = ["bundled"] }
walkdir = "2"
glib = "*"
gtk4 = "*"
libadwaita = { version = "*", features = ["v1_5"] }
