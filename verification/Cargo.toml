[package]
name = "cinder"
version = "0.1.0"
edition = "2021"
publish = false

[dependencies]
hashbrown = "0.14"
ash = "0.37"
sdl2 = "0.35"
serde = { version = "1", features = ["derive"] }
serde_json = "1"
anyhow = "1"
thiserror = "1"
bitflags = "2"
