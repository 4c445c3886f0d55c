[package]
name = "game_entity"
version = "0.1.0"
edition = "2021"
publish = false

[dependencies]
mlua = { version = "0.9", features = ["lua54", "vendored", "macros"] }
rlua = "0.20"
