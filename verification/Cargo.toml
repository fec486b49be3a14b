[package]
name = "bashers"
version = "0.1.0"
edition = "2021"
publish = false

[dependencies]
regex = "1"
ratatui = "0.29"
crossterm = "0.28"
ansi-to-tui = "7"
anyhow = "1"
atty = "0.2"
ctrlc = "3"
clap = { version = "4", features = ["derive"] }
diff = "0.1"
termcolor = "1"
