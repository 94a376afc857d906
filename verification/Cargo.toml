[package]
name = "rpi_einkserver_rs"
version = "0.1.0"
edition = "2021"
publish = false

[dependencies]
clap = { version = "*", features = ["derive"] }
embedded-graphics = "*"
rppal = "*"
thiserror = "*"
