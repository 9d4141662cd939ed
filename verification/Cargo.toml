[package]
name = "arp_monitor"
version = "0.1.0"
edition = "2021"
publish = false

[dependencies]
pnet = "*"
clap = { version = "4", features = ["derive"] }
colored = "2"
rusqlite = "*"
