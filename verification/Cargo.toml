[package]
name = "tui_clock"
version = "0.1.0"
edition = "2021"
publish = false

[dependencies]
clap = { version = "*", features = ["derive"] }
color-eyre = "*"
directories = "*"
ratatui = { version = "*", default-features = false }
serde = { version = "*", features = ["derive"] }
strum = { version = "*", features = ["derive"] }
