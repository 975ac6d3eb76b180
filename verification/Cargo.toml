[package]
name = "goalnet"
version = "0.1.0"
edition = "2021"
publish = false

[dependencies]
anyhow = "=1.0.104"
clap = { version = "=4.6.7", features = ["derive"] }
dll-syringe = "=0.18.2"
msgbox = "=0.7.0"
netcorehost = { version = "=0.22.0", default-features = false, features = ["netcore3_0"] }
serde = { version = "=1.0.229", features = ["derive"] }
sysinfo = "=0.39.6"
toml = "=0.8.23"
