[package]
name = "wifi_tui"
version = "0.1.0"
edition = "2021"
publish = false

[dependencies]
ratatui = "*"
color-eyre = "*"
anyhow = "*"
async-trait = "*"
zbus = "*"
