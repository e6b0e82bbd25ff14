[package]
name = "music_player"
version = "0.1.0"
edition = "2021"
publish = false

[dependencies]
itertools = "*"
symphonia = "0.5"
rb = "*"
serde = { version = "*", features = ["derive"] }
id3 = "*"
walkdir = "*"
rayon = "*"
confy = "*"
tracing = "*"
tracing-subscriber = "*"
