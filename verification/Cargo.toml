[package]
name = "file_compressor"
version = "0.1.0"
edition = "2021"
publish = false

[dependencies]
zstd = { version = "0.13", features = ["zstdmt"] }
tar = "0.4"
clap = { version = "4", features = ["derive"] }
glob = "0.3"
indicatif = "0.17"
rayon = "1"
eframe = { version = "0.29", default-features = false, features = ["default_fonts", "glow", "x11"] }
rfd = { version = "0.15", default-features = false, features = ["xdg-portal", "tokio"] }
