[package]
name = "sprout"
version = "0.1.0"
edition = "2021"
publish = false

[dependencies]
heck = "0.5"
regex-syntax = "*"
anyhow = "1"
thiserror = "*"
clap = { version = "4", features = ["derive"] }
console = "*"
dialoguer = "*"
serde = { version = "1", features = ["derive"] }
tera = "1"
rust-embed = "*"
walkdir = "2"
update-informer = { version = "*", features = ["github"] }
once_cell = "1"
regex = "1"
