[package]
name = "sdl_wrapper"
version = "0.1.0"
edition = "2021"
publish = false

[dependencies]
bytemuck = "1"
image = "0.24"
sdl2 = "0.35"
thiserror = "1"
