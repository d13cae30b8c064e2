[package]
name = "swoosh"
version = "0.1.0"
edition = "2021"
publish = false

[dependencies]
bitflags = "2"
bytesize = "1.3"
color-eyre = "0.6"
crossterm = "0.28"
image = { version = "0.25", default-features = false, features = ["avif", "exr", "gif", "jpeg", "png", "webp"] }
rand = "0.8"
ratatui = "0.29"
serde = { version = "1", features = ["derive"] }
strum = { version = "0.26", features = ["derive"] }
tokio = { version = "1", features = ["macros", "rt-multi-thread", "sync", "time"] }
tracing = "0.1"
