[package]
name = "nimbus"
version = "0.1.0"
edition = "2021"
publish = false

[dependencies]
argh = "0.1"
async-trait = "0.1"
serde = { version = "1", features = ["derive"] }
serde_yml = "*"
smol = "2"
thiserror = "1"
