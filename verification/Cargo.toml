[package]
name = "mplayer"
version = "0.1.0"
edition = "2021"
publish = false

[dependencies]
ffmpeg-next = "=9.0.0"
sdl3 = { version = "=0.20.0", features = ["unsafe_textures"] }
