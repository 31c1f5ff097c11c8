[package]
name = "geoscope"
version = "0.1.0"
edition = "2021"
publish = false

[dependencies]
serde = { version = "1", features = ["derive"] }
serde_json = "1"
rhai = "1"
ureq = { version = "2", features = ["json"] }
netcdf = "*"
num-complex = "0.4"
image = { version = "0.25", default-features = false, features = ["png"] }
gif = "*"
log = "0.4"
env_logger = "*"
