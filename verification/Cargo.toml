[package]
name = "mpu6050"
version = "0.1.0"
edition = "2021"
publish = false

[dependencies]
embedded-hal = "1"
micromath = { version = "2", features = ["vector"] }
