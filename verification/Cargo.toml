[package]
name = "submodule_list"
version = "0.1.0"
edition = "2021"
publish = false

[dependencies]
anyhow = "=1.0.104"
crossterm = { version = "=0.25.0", features = ["serde"] }
serde = { version = "=1.0.229", features = ["derive"] }
tui = { version = "=0.19.0", default-features = false, features = ["crossterm"] }
unicode-truncate = "=0.2.0"
unicode-width = "=0.1.14"
