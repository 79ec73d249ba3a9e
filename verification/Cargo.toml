[package]
name = "greetui"
version = "0.1.0"
edition = "2021"
publish = false

[dependencies]
ratatui = { version = "0.29", features = ["unstable-rendered-line-info"] }
ansi-to-tui = "7"
crossterm = "0.28"
zeroize = "1"
clap = { version = "4", features = ["derive"] }
chrono = { version = "0.4", features = ["unstable-locales"] }
tokio = { version = "1", features = ["full"] }
greetd_ipc = { version = "0.10", features = ["tokio-codec"] }
libc = "0.2"
rand = "0.8"
tracing = "0.1"
tracing-appender = "0.2"
tracing-subscriber = "0.3"
