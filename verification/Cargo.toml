[package]
name = "epdsi"
version = "0.1.0"
edition = "2021"
publish = false

[dependencies]
embedded-hal = "1.0"
embedded-graphics-core = "0.4"
