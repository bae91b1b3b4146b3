[package]
name = "muster"
version = "0.1.0"
edition = "2021"
publish = false

[dependencies]
alacritty_terminal = "*"
crossbeam-channel = "0.5"
crossterm = "*"
fake = "*"
ratatui = "*"
terminal-colorsaurus = "*"
tui-input = "*"
vt100 = "*"
