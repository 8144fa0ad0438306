[package]
name = "fermix_desktop"
version = "0.1.0"
edition = "2021"
publish = false

[dependencies]
gettext-rs = { version = "*", features = ["gettext-system"] }
serde = { version = "1", features = ["derive"] }
serde_json = "1"
gtk4 = "*"
libadwaita = "*"
