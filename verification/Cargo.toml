[package]
name = "asset_encoder"
version = "0.1.0"
edition = "2021"
publish = false

[dependencies]
clap = { version = "4", features = ["derive"] }
image = "0.25"
midly = "0.5"
postcard = { version = "1", features = ["alloc"] }
serde = { version = "1", features = ["derive"] }
