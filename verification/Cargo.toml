[package]
name = "ebyte_e32_ui"
version = "0.1.0"
edition = "2021"
publish = false

[dependencies]
anyhow = "1"
clap = { version = "4", features = ["derive"] }
ebyte-e32 = "=0.9.0"
embedded-hal = "=0.2.7"
linux-embedded-hal = "=0.3.2"
nb = "1"
rustyline = "*"
serde = { version = "1", features = ["derive"] }
toml = "*"
