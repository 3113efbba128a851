[package]
name = "keytree"
version = "0.1.0"
edition = "2021"
publish = false

[dependencies]
xcb = { version = "=0.9.0", features = ["randr"] }
nix = { version = "=0.27.1", features = ["poll"] }
serde = { version = "=1.0.229", features = ["derive"] }
serde_json = "=1.0.151"
serde_yaml = "=0.9.34"
dirs = "=7.0.0"
structopt = "=0.3.26"
config = "=0.15.27"
pango = "*"
cairo-rs = "*"
cairo-sys-rs = "*"
pangocairo = "*"
