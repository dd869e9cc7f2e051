[package]
name = "media_relay"
version = "0.1.0"
edition = "2021"
publish = false

[dependencies]
env_logger = "0.9"
mio = "0.6"
mio-extras = "2"
structopt = "0.3"
