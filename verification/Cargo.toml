[package]
name = "hexwrap"
version = "0.1.0"
edition = "2021"
publish = false

[dependencies]
hex = "0.4"
serde = "1"
bytemuck = { version = "1", features = ["derive"] }

[dev-dependencies]
serde_json = "1"
