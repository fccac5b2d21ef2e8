[package]
name = "stage1_init"
version = "0.1.0"
edition = "2021"
publish = false

[dependencies]
docopt = "*"
env_logger = "*"
libc = "*"
log = "*"
serde = { version = "*", features = ["derive"] }
serde_json = "*"
walkdir = "*"

[dev-dependencies]
tempfile = "*"
