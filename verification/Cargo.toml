[package]
name = "chatbot"
version = "0.1.0"
edition = "2021"
publish = false

[dependencies]
anyhow = "=1.0.104"
log = "=0.4.34"
rand = "=0.10.3"
simple_logger = "=5.2.0"
smol = "=2.0.2"
twitchchat = { version = "=0.14.8", features = ["smol", "async"] }
