[package]
name = "glyphit"
version = "0.1.0"
edition = "2021"
publish = false

[dependencies]
git2 = { version = "=0.21.0", features = ["cred"] }
clap = { version = "=4.6.7", features = ["derive"] }
inquire = "=0.9.4"

[dev-dependencies]
tempfile = "=3.27.0"
