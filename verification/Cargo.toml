[package]
name = "detection_wizard"
version = "0.1.0"
edition = "2021"
publish = false

[dependencies]
anyhow = "=1.0.104"
chrono = { version = "=0.4.45", default-features = false, features = ["clock"] }
eframe = { version = "=0.32.3", default-features = false, features = ["glow", "default_fonts", "x11"] }
git2 = { version = "=0.20.4", default-features = false, features = ["https"] }
image = { version = "=0.25.10", default-features = false, features = ["jpeg"] }
regex = "=1.13.1"
reqwest = { version = "=0.12.28", default-features = false, features = ["blocking", "default-tls"] }
rfd = { version = "=0.15.4", default-features = false, features = ["xdg-portal", "tokio"] }
serde = { version = "=1.0.229", features = ["derive"] }
tempfile = "=3.27.0"
walkdir = "=2.5.0"
