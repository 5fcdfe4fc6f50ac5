[package]
name = "mize_dev"
version = "0.1.0"
edition = "2021"
publish = false

[dependencies]
shell-words = "1"
clap = "4"
cmd_lib = "1"
color-eyre = "0.6"
colored = "2"
crossterm = "0.28"
flume = "0.11"
ratatui = "0.29"
serde = { version = "1", features = ["derive"] }
serde_json = "1"
waitpid-any = "*"
