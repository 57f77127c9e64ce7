[package]
name = "dfr_config"
version = "0.1.0"
edition = "2021"
publish = false

[dependencies]
anyhow = "1"
cairo-rs = { version = "*", default-features = false, features = ["freetype"] }
freetype-rs = "*"
input-linux = { version = "*", features = ["serde"] }
nix = { version = "*", features = ["inotify"] }
serde = { version = "1", features = ["derive"] }
toml = "*"
