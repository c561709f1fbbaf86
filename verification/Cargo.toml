[package]
name = "toycar"
version = "0.1.0"
edition = "2021"
publish = false

[dependencies]
heapless = { version = "0.8", features = ["serde"] }
serde = { version = "1", features = ["derive"] }
postcard = "1"
clap = { version = "4", features = ["derive"] }
serialport = { version = "4", default-features = false }
ratatui = "0.29"
