[package]
name = "label_printer"
version = "0.1.0"
edition = "2021"
publish = false

[dependencies]
image = { version = "=0.25.10", default-features = false, features = ["png", "jpeg", "gif", "webp", "tiff", "bmp"] }
exoquant = "=0.2.0"
brakes = "=0.1.1"
qrcode-generator = "=5.0.0"
teloxide-core = "=0.13.0"
# teloxide-core depends on takecell; 0.1.2 asks for a newer compiler than this crate builds with.
takecell = "=0.1.1"
tokio = { version = "=1.54.1", features = ["rt-multi-thread", "macros", "sync", "fs"] }
dotenvy = "=0.15.7"
env_logger = "=0.11.11"
log = "=0.4.34"
thiserror = "=2.0.21"
