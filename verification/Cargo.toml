[package]
name = "platformer"
version = "0.1.0"
edition = "2021"
publish = false

[dependencies]
hecs = "*"
string_cache = "0.8"
ggez = "0.5"
toml = "0.5"
serde = { version = "1", features = ["derive"] }
serde_derive = "1"
itertools = "*"
maplit = "1"
