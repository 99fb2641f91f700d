[package]
name = "uefapi_runner"
version = "0.1.0"
edition = "2021"
publish = false

[dependencies]
env_logger = "=0.11.11"
log = "=0.4.34"
tempfile = "=3.27.0"
toml = { version = "=1.1.8", features = ["preserve_order"] }
