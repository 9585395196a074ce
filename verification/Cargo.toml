[package]
name = "flok"
version = "0.1.0"
edition = "2021"
publish = false

[dependencies]
anyhow = "*"
clap = { version = "*", features = ["derive"] }
crossbeam-channel = "*"
crossterm = "*"
nix = { version = "*", features = ["signal"] }
notify = "*"
portable-pty = "*"
ratatui = "*"
serde = { version = "*", features = ["derive"] }
serde_yaml = "*"
tempfile = "*"
thiserror = "*"
vt100 = "*"
