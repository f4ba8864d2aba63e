[package]
name = "cbmp-rs"
version = "0.1.0"
edition = "2021"
publish = false

[dependencies]
anyhow = "=1.0.104"
clap = { version = "=4.6.7", features = ["derive"] }
glob = "=0.3.4"
resvg = "=0.49.0"
serde_json = { version = "=1.0.154", features = ["preserve_order"] }
tiny-skia = "=0.12.0"
usvg = "=0.49.0"
