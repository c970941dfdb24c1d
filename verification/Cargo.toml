[package]
name = "plugin_core"
version = "0.1.0"
edition = "2021"
publish = false

[dependencies]
url = "2"
eyre = "0.6"
tokio = { version = "1", features = ["rt", "time", "net"] }
console = "0.15"
rayon = "1"
xx = "*"
