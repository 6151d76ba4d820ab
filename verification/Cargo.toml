[package]
name = "ni_display"
version = "0.1.0"
edition = "2021"
publish = false

[dependencies]
embedded-graphics-core = "0.4"
rusb = "0.9"
thiserror = "1"
