[package]
name = "pwvlt"
version = "0.1.0"
edition = "2021"
publish = false

[dependencies]
passwords = "*"
secret-service = "*"
keyring = "*"
nitrokey = "*"
serde = { version = "*", features = ["derive"] }
toml = "*"
home = "*"
clap = "*"
rpassword = "*"
clipboard = "*"
prettytable-rs = "*"
simple_logger = "*"
