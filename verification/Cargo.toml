[package]
name = "nvim_redraw"
version = "0.1.0"
edition = "2021"
publish = false

[dependencies]
log = "0.4"
rmpv = "1"
skia-safe = "*"
strum = { version = "0.26", features = ["derive"] }
