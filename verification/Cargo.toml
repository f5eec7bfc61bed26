[package]
name = "beads_rust"
version = "0.1.0"
edition = "2021"
publish = false

[dependencies]
dunce = "=1.0.5"

[dev-dependencies]
chrono = "=0.4.45"
tempfile = "=3.27.0"
