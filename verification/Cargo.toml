[package]
name = "jukebox"
version = "0.1.0"
edition = "2021"
publish = false

[dependencies]
symphonia = { version = "*", features = ["mp3"] }
ratatui = "*"
crossterm = "*"
rodio = "*"
tui-tree-widget = "*"
rascii_art = "*"
color-eyre = "*"
