[package]
name = "polybar_battery"
version = "0.1.0"
edition = "2021"
publish = false

[dependencies]
anyhow = "1"
battery = "0.7"
clap = { version = "3.2", features = ["derive"] }
