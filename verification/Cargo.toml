[package]
name = "lilnas_server_ui"
version = "0.1.0"
edition = "2021"
publish = false

[dependencies]
base64 = "0.13"
bcrypt = "0.13"
clap = { version = "3", features = ["derive"] }
color-eyre = "0.6"
dirs = "4"
log = "0.4"
once_cell = "1"
owo-colors = "3"
parking_lot = "0.12"
rand = "0.8"
rpassword = "7"
serde = { version = "1", features = ["derive"] }
simple_logger = "4"
toml = "0.5"
