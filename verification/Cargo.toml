[package]
name = "chokidar"
version = "0.1.0"
edition = "2021"
publish = false

[dependencies]
clap = { version = "=4.6.7", features = ["derive"] }
clean-path = "=0.2.1"
colored = "=3.1.1"
dunce = "=1.0.5"
notify = "=8.2.0"
wax = "=0.7.0"
