[package]
name = "amai_music_player"
version = "0.1.0"
edition = "2021"
publish = false

[dependencies]
anyhow = "1"
directories = "5"
kira = "0.8"
lofty = "*"
prost = "0.12"
