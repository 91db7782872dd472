[package]
name = "mdcat"
version = "2.1.0"
edition = "2021"
publish = false

[dependencies]
anyhow = "=1.0.104"
clap = { version = "=4.6.7", features = ["derive"] }
clap_complete = "=4.6.11"
pulldown-cmark = "=0.12.2"
pulldown-cmark-mdcat = "=2.9.1"
syntect = "=5.3.0"
tracing = "=0.1.44"
