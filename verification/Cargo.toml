[package]
name = "game_tutorial"
version = "0.1.0"
edition = "2021"
publish = false

[dependencies]
rand = "0.8"
specs = { version = "0.20", features = ["derive"] }
sdl2 = { version = "0.37", features = ["image", "ttf"] }
