[package]
name = "openscq30_lib"
version = "0.1.0"
edition = "2021"
publish = false

[dependencies]
nom = "8"
serde = { version = "1", features = ["derive"] }
strum = { version = "0.27", features = ["derive"] }
tokio = { version = "1", default-features = false, features = ["sync"] }
async-trait = "0.1"
