[package]
name = "epd2in13b"
version = "0.1.0"
edition = "2021"
publish = false

[dependencies]
bit_field = "0.10"
embedded-hal = { version = "0.2", features = ["unproven"] }
