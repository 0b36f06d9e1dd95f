[package]
name = "smoothly"
version = "0.1.0"
edition = "2021"
publish = false

[dependencies]
ansi_term = "*"
clap = "2"
colored = "*"
crossterm = "*"
fs_extra = "*"
hashbrown = "*"
md-5 = "*"
pbo = "*"
question = "*"
serde = { version = "*", features = ["derive"] }
serde_json = "*"
sha1 = "*"
walkdir = "*"
