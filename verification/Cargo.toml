[package]
name = "sonic_flow"
version = "0.1.0"
edition = "2021"
publish = false

[dependencies]
id3 = "=1.17.2"
metaflac = "=0.2.8"
hound = "=3.5.1"
clap = { version = "=4.6.7", features = ["derive"] }
thiserror = "=2.0.21"
serde = { version = "=1.0.229", features = ["derive"] }
tracing = "=0.1.44"
tracing-subscriber = "=0.3.23"
symphonia = { version = "0.5", features = ["all"] }
