[package]
name = "wpm_watcher"
version = "0.1.0"
edition = "2021"
publish = false

[dependencies]
words-count = "*"
clap = { version = "*", features = ["derive"] }
futures = "*"
notify-rust = "*"
relm4 = { version = "*", features = ["libadwaita"] }
tokio = { version = "*", features = ["rt", "time"] }
