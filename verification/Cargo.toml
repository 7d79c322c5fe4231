[package]
name = "light_control"
version = "0.1.0"
edition = "2021"
publish = false

[dependencies]
anyhow = "1"
async-trait = "0.1"
clap = { version = "4", features = ["derive"] }
csscolorparser = "0.6"
serde = { version = "1", features = ["derive"] }
serde_json = "1"
