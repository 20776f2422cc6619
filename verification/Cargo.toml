[package]
name = "proctop"
version = "0.1.0"
edition = "2021"
publish = false

[dependencies]
color-eyre = "0.6"
crossterm = "0.28"
ratatui = "0.29"
sysinfo = "0.37"
tui-textarea = "0.7"
users = "0.11"
