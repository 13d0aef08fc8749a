[package]
name = "mats"
version = "0.1.0"
edition = "2021"
publish = false

[dependencies]
gl = "*"
glium = { version = "*", default-features = false }
thiserror = "*"
