[package]
name = "fuga"
version = "0.0.1"
edition = "2021"
publish = false

[dependencies]
clap = { version = "4", features = ["derive"] }
clap_complete = "4"
confy = "0.6"
crossterm = "0.28"
dirs = "5"
emojis = "0.6"
fs_extra = "1"
indicatif = "0.17"
once_cell = "1"
ratatui = "0.29"
serde = { version = "1", features = ["derive"] }
