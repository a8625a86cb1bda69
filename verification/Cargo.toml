[package]
name = "iocore"
version = "0.1.0"
edition = "2021"
publish = false

[dependencies]
regex = "1"
trilobyte = "*"
serde = { version = "1", features = ["derive"] }
chrono = "0.4"
filetime = "0.2"
sanitation = "*"
shellexpand = "3"
thread-groups = "*"
walkdir = "2"
glob = "0.3"
lazy_static = "1"
