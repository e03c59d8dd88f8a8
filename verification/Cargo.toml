[package]
name = "mdcopy"
version = "0.1.0"
edition = "2021"
publish = false

[dependencies]
base64 = "=0.23.1"
clap = { version = "=4.6.7", features = ["derive"] }
clipboard-rs = "=0.3.5"
dirs = "=7.0.0"
env_logger = "=0.11.11"
log = "=0.4.34"
markdown = "=1.0.0"
rimage = { version = "=0.12.3", default-features = false, features = ["resize", "mozjpeg", "oxipng", "threads"] }
serde = { version = "=1.0.229", features = ["derive"] }
syntect = { version = "=5.3.0", default-features = false, features = ["default-fancy"] }
tempfile = "=3.27.0"
toml = "=1.1.7"
ureq = "=3.4.2"
zune-core = "=0.5.3"
zune-image = "=0.5.0"

[dev-dependencies]
