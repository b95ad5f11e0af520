[package]
name = "eventkit"
version = "0.1.0"
edition = "2021"
publish = false

[dependencies]
block2 = "*"
chrono = "0.4"
clap = { version = "4", features = ["derive"] }
objc2 = "*"
objc2-event-kit = "*"
objc2-foundation = "*"
thiserror = "2"
