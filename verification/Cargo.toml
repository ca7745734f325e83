[package]
name = "null-webhook"
version = "0.1.0"
edition = "2021"
publish = false

[dependencies]
clap = { version = "4", features = ["derive", "env"] }
ctrlc = "3"
eyre = "0.6"
sd-notify = "0.4"
tiny_http = "0.12"
