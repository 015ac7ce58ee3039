[package]
name = "picoboot_rs"
version = "0.1.0"
edition = "2021"
publish = false

[dependencies]
bincode = "1.3"
rusb = "0.9"
serde = { version = "1", features = ["derive"] }
thiserror = "1"
