[package]
name = "shortcut_sync"
version = "0.1.0"
edition = "2021"
publish = false

[dependencies]
clap = { version = "*", features = ["derive"] }
csv = "*"
dialoguer = "*"
steam_shortcuts_util = "*"
which = "*"
xdg = "*"
