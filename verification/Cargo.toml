[package]
name = "muxterm_frontend"
version = "0.1.0"
edition = "2021"
publish = false

[dependencies]
anyhow = "1"
gtk4 = "*"
libc = "0.2"
serde = { version = "1", features = ["derive"] }
serde_json = "1"
tracing = "0.1"
vte = { version = "*", features = ["ansi"] }
yeslogic-fontconfig-sys = "*"
