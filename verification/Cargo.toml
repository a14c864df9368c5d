[package]
name = "image_text"
version = "0.1.0"
edition = "2021"
publish = false

[dependencies]
cosmic-text = "0.12"
fontdb = "0.16"
image = { version = "0.25", default-features = false }
sys-locale = "0.3"
thiserror = "1"
