[package]
name = "rsear"
version = "0.1.0"
edition = "2021"
publish = false

[dependencies]
fluidlite = "=0.2.1"
rodio = { version = "=0.20.1", default-features = false }
