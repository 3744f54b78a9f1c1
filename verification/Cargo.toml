[package]
name = "vide"
version = "0.1.0"
edition = "2021"
publish = false

[dependencies]
log = "=0.4.34"
skulpin = "=0.8.2"
winapi = { version = "=0.3.9", features = ["winuser"] }
