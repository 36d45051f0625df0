[package]
name = "cluster_mover"
version = "0.1.0"
edition = "2021"
publish = false

[dependencies]
env_logger = "0.10"
log = "0.4"
reqwest = { version = "0.12", default-features = false, features = ["blocking", "json"] }
serde_json = "1"
structopt = "0.3"
