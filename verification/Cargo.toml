[package]
name = "auto_ssh"
version = "0.1.0"
edition = "2021"
publish = false

[dependencies]
dirs = "6"
eframe = { version = "0.31", default-features = false, features = ["default_fonts", "glow", "x11"] }
env_logger = "0.11"
ksni = { version = "0.3", features = ["blocking"] }
log = "0.4"
serde = { version = "1", features = ["derive"] }
shellexpand = "3"
ssh2 = "0.9"
tokio = { version = "1", features = ["rt", "net", "time"] }
toml = "0.8"
