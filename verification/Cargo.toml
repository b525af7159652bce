[package]
name = "clack_audio_host"
version = "0.1.0"
edition = "2021"
publish = false

[dependencies]
clack-extensions = { version = "=0.2.0", features = ["clack-host", "params"] }
clack-host = "=0.2.0"
clap = { version = "=4.6.7", features = ["derive"] }
jack = "=0.13.5"
linefeed = "=0.6.0"
