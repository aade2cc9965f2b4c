[package]
name = "rustle"
version = "0.1.0"
edition = "2021"
publish = false

[dependencies]
ratatui = { version = "=0.29.0", features = ["widget-calendar"] }
crossterm = "=0.28.1"
tui-textarea = "=0.7.0"
time = { version = "=0.3.55", features = ["local-offset"] }
color-eyre = "=0.6.5"
log = "=0.4.34"
simple-logging = "=2.0.2"
