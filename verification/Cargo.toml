[package]
name = "termchat_wan"
version = "0.1.0"
edition = "2021"
publish = false

[dependencies]
shellwords = "1"
shellexpand = "*"
message-io = "*"
crossterm = "*"
tui = "*"
clap = "2"
