[package]
name = "firecore-battle"
version = "0.1.0"
edition = "2021"
publish = false

[dependencies]
firecore-pokedex = "*"
log = "0.4"
rand = "0.8"
rhai = "1"
serde = { version = "1", features = ["derive"] }
