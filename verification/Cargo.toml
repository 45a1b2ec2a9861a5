[package]
name = "startrails"
version = "0.1.0"
edition = "2021"
publish = false

[dependencies]
kamadak-exif = "*"
rawloader = "*"
glob = "*"
clap = { version = "*", features = ["derive"] }
indicatif = "*"
num_cpus = "*"
rayon = "*"
