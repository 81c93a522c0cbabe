[package]
name = "projektwoche_setup"
version = "0.1.0"
edition = "2021"
publish = false

[dependencies]
clap = { version = "4", features = ["derive"] }
confy = "*"
inquire = "*"
os_info = "*"
serde = { version = "1", features = ["derive"] }
