[package]
name = "game_master"
version = "0.1.0"
edition = "2021"
publish = false

[dependencies]
prost = "*"
tokio = { version = "1", features = ["macros", "rt-multi-thread", "sync", "time"] }
tokio-stream = "*"
tonic = "*"
uuid = "*"
