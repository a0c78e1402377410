[package]
name = "adsb_decoder"
version = "0.1.0"
edition = "2021"
publish = false

[dependencies]
thiserror = "2"
macroquad = "0.4"
