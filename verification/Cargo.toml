[package]
name = "climageproc"
version = "0.1.0"
edition = "2021"
publish = false

[dependencies]
anyhow = "1"
clap = { version = "4", features = ["derive"] }
image = { version = "0.25", default-features = false, features = ["gif", "jpeg", "png", "webp"] }
indicatif = "0.17"
rayon = "1"
