[package]
name = "cosmic_ray"
version = "0.1.0"
edition = "2021"
publish = false

[dependencies]
structopt = "0.3"
env_logger = "*"
log = "0.4"
rand = "0.8"

[dev-dependencies]
serde_json = "1"
