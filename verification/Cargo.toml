[package]
name = "openal_runtime"
version = "0.1.0"
edition = "2021"
publish = false

[dependencies]
rodio = "=0.20.1"
libloading = "=0.8.9"
glam = "=0.30.10"
shell-words = "1"
