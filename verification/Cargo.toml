[package]
name = "metal_lion"
version = "0.1.0"
edition = "2021"
publish = false

[dependencies]
glyph-bbox = "=0.1.0"
htmlescape = "=0.3.1"
simple-icons = "=0.1.1"
liquid = "=0.26.11"
# liquid pulls kstring in; its releases after 2.0.0 ask for a newer rustc
# than this project's toolchain provides, so the version is held here.
kstring = "=2.0.0"
warp = "=0.3.7"
tokio = { version = "*", features = ["full"] }
clap = "=2.34.0"
prometheus = "*"
lazy_static = "*"
log = "*"
pretty_env_logger = "*"
serde = { version = "*", features = ["derive"] }
serde_json = "*"
