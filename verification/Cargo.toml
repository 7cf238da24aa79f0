[package]
name = "sgmm"
version = "0.1.0"
edition = "2021"
publish = false

[dependencies]
clap = "=3.2.25"
colour = "=2.1.0"
regex = "=1.13.1"
serde = { version = "=1.0.229", features = ["derive"] }
ureq = { version = "=1.5.5", features = ["json"] }
zip = { version = "=9.0.5", default-features = false, features = ["deflate"] }
