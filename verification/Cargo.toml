[package]
name = "tek4404"
version = "0.1.0"
edition = "2021"
publish = false

[dependencies]
arraydeque = "*"
tokio = { version = "1", features = ["rt-multi-thread", "net", "io-util", "time", "sync", "macros"] }
clap = { version = "4", features = ["derive"] }
sdl2 = "*"
