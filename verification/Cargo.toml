[package]
name = "authgateway"
version = "0.1.0"
edition = "2021"
publish = false

[dependencies]
actix-web = "=4.15.0"
anyhow = "=1.0.104"
async-trait = "=0.1.92"
awc = "=3.8.2"
chrono = "=0.4.45"
env_logger = "=0.11.11"
log = "=0.4.34"
serde = { version = "=1.0.229", features = ["derive"] }
serde_json = "=1.0.151"
serde_yaml = "=0.9.34"
sha3 = "=0.12.0"
structopt = "=0.3.26"
thiserror = "=2.0.21"
