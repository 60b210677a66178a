[package]
name = "music_tagger"
version = "0.1.0"
edition = "2021"
publish = false

[dependencies]
lofty = "*"
napi = "*"
napi-derive = "*"
