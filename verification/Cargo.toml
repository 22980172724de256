[package]
name = "light_pdf"
version = "0.1.0"
edition = "2021"
publish = false

[dependencies]
pdfium-render = "=0.8.37"
image = { version = "=0.25.10", default-features = false }
serde = { version = "=1.0.229", features = ["derive"] }
serde_json = "=1.0.154"
eframe = { version = "0.33", default-features = false, features = ["glow", "x11", "default_fonts"] }
rfd = { version = "0.15", default-features = false }
