[package]
name = "game_server"
version = "0.1.0"
edition = "2021"
publish = false

[dependencies]
flatbuffers = "0.8"
slab = "0.4"
async-std = "1"
async-tungstenite = { version = "*", features = ["async-std-runtime"] }
futures = "0.3"
actix-threadpool = "0.3"
async-trait = "0.1"
log = "0.4"
env_logger = "*"
thiserror = "1"
