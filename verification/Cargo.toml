[package]
name = "mc_loot_finder"
version = "0.1.0"
edition = "2021"
publish = false

[dependencies]
clap = { version = "4", features = ["derive"] }
glam = "0.30"
rustc-hash = "2"
serde_json = "1"
thiserror = "2"
