[package]
name = "station_search"
version = "0.1.0"
edition = "2021"
publish = false

[dependencies]
radiobrowser = { version = "=0.6.1", features = ["blocking"] }
serde = { version = "1", features = ["derive"] }
