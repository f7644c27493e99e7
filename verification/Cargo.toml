[package]
name = "voxelize_world"
version = "0.1.0"
edition = "2021"
publish = false

[dependencies]
hashbrown = "*"
nanoid = "*"
specs = { version = "*", features = ["derive"] }
serde = { version = "*", features = ["derive"] }
serde_json = "*"
log = "*"
