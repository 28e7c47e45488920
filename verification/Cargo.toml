[package]
name = "rbca_core"
version = "0.1.0"
edition = "2021"
publish = false

[dependencies]
camino = { version = "=1.2.6", features = ["serde1"] }
clap = { version = "=4.6.7", features = ["derive"] }
color-eyre = "=0.6.5"
config = "*"
directories = "*"
hex_color = { version = "*", features = ["serde"] }
sdl2 = "=0.38.0"
serde = { version = "1", features = ["derive"] }
shellexpand = "*"
text_io = "=0.1.13"
