[package]
name = "gateway_supervisor"
version = "0.1.0"
edition = "2021"
publish = false

[dependencies]
clap = { version = "4", features = ["derive"] }
daemonize = "*"
slog = "2"
slog-async = "2"
slog-scope = "4"
slog-stdlog = "4"
slog-syslog = "*"
slog-term = "2"
tokio = { version = "1", features = ["rt", "macros", "signal", "io-std", "io-util", "time"] }
triggered = "0.1"
