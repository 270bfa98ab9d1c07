[package]
name = "gyro_sync"
version = "0.1.0"
edition = "2021"
publish = false

[dependencies]
log = "0.4"
naga = { version = "22", features = ["glsl-out", "spv-in"] }
nalgebra = "0.33"
parking_lot = "0.12"
regex = "1"
