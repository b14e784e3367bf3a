[package]
name = "notes_client"
version = "0.1.0"
edition = "2021"
publish = false

[dependencies]
nvim-oxi = { version = "=0.2.2", features = ["neovim-0-8"] }
serde = { version = "1", features = ["derive"] }
