[package]
name = "vireon_php"
version = "0.1.0"
edition = "2021"
publish = false

[dependencies]
tokio = { version = "=1.54.1", features = ["rt-multi-thread", "sync"] }
once_cell = "=1.21.4"
