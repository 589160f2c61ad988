[package]
name = "nethid"
version = "0.1.0"
edition = "2021"
publish = false

[dependencies]
hex = "0.4"
serde = { version = "1", features = ["derive"] }
serde_json = "1"
ureq = { version = "3", default-features = false, features = ["json"] }
clap = { version = "4", features = ["derive", "env"] }
sdl2 = "*"
