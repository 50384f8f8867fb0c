[package]
name = "clips_app"
version = "0.1.0"
edition = "2021"
publish = false

[dependencies]
anyhow = "1"
clap = { version = "4", features = ["derive"] }
evdev = "0.12"
libc = "0.2"
nix = { version = "0.29", features = ["signal", "process"] }
regex = "1"
serde = { version = "1", features = ["derive"] }
serde_json = "1"
tokio = { version = "1", features = ["full"] }
