[package]
name = "screen_cycle"
version = "0.1.0"
edition = "2021"
publish = false

[dependencies]
rand = "=0.10.3"
esp-idf-svc = "=0.53.0"
mousefood = "=0.5.2"
mipidsi = "=0.10.0"
tui-big-text = "=0.8.10"
time = "=0.3.55"
ratatui = { version = "*", features = ["widget-calendar"] }
