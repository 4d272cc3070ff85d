[package]
name = "stockwatch"
version = "0.1.0"
edition = "2021"
publish = false

[dependencies]
serde_json = "1"
http_req = "*"
chrono = "0.4"
crossterm = "0.25"
tui = "0.19"
dirs-next = "2"
