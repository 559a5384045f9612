[package]
name = "hyprvisor"
version = "0.1.0"
edition = "2021"
publish = false

[dependencies]
bincode = "1.3.3"
bluer = { version = "*", features = ["bluetoothd"] }
clap = { version = "4", features = ["derive"] }
fern = "*"
humantime = "2"
iwdrs = "*"
log = "0.4"
once_cell = "1"
serde = { version = "1", features = ["derive"] }
serde_json = "1"
tokio = { version = "1", features = ["full"] }
