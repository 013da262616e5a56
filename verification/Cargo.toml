[package]
name = "dsv_gui"
version = "0.1.0"
edition = "2021"
publish = false

[dependencies]
anyhow = "=1.0.104"
log = "=0.4.35"
type-crawler = "=0.1.0"
exn-anyhow = "=0.1.0"
eframe = { version = "=0.32.3", default-features = false, features = ["glow", "default_fonts", "x11"] }
rfd = { version = "=0.15.4", default-features = false, features = ["xdg-portal", "tokio"] }
