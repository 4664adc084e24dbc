[package]
name = "iron_tera"
version = "0.5.0"
edition = "2021"
publish = false

[dependencies]
tera = { version = "*", default-features = false }
serde = "*"
serde_json = "*"
iron = "*"
plugin = "*"
