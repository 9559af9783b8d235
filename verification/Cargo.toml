[package]
name = "hachimi_installer"
version = "0.1.0"
edition = "2021"
publish = false

[dependencies]
pelite = "*"
steamlocate = "2"
serde_json = "1"
