[package]
name = "mousequake"
version = "0.1.0"
edition = "2021"
publish = false

[dependencies]
clap = { version = "4", features = ["derive"] }
clap_complete = "4"
enigo = "0.2"
signal-hook = "0.3"
