[package]
name = "linkmerge"
version = "0.1.0"
edition = "2021"
publish = false

[dependencies]
anyhow = "*"
clap = { version = "*", features = ["derive"] }
log = "*"
notify = "*"
serde = { version = "*", features = ["derive"] }
serde_yaml = "*"
simplelog = "*"
symlink = "*"
tilde-expand = "*"
