[package]
name = "try_gluon"
version = "0.1.0"
edition = "2021"
publish = false

[dependencies]
gluon = { version = "=0.18.4", features = ["serialization"] }
gluon_format = "=0.18.4"
serde = { version = "=1.0.229", features = ["derive"] }
serde_json = "=1.0.151"
toml = "=0.5.11"
glob = "=0.3.4"
home = "=0.5.12"
anyhow = "=1.0.104"
