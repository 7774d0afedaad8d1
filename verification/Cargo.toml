[package]
name = "utracker_launcher"
version = "0.1.0"
edition = "2021"
publish = false

[dependencies]
dialoguer = "*"
once_cell = "1"
rayon = "1"
serde = { version = "1", features = ["derive"] }
serde_yml = "*"
supports-color = "*"
thiserror = "*"
toml = "*"
yaml-rust2 = "*"
