[package]
name = "whatmedoin"
version = "0.1.0"
edition = "2021"
publish = false

[dependencies]
serde_json = "=1.0.154"
clap = "=4.6.7"
tokio = { version = "=1.54.1", features = ["rt-multi-thread", "macros", "time", "signal"] }
reqwest = { version = "=0.12.28", default-features = false, features = ["rustls-tls"] }
futures = "=0.3.34"
signal-hook = "=0.3.18"
signal-hook-tokio = { version = "=0.3.1", features = ["futures-v0_3"] }
libc = "=0.2.191"
daemonize = "=0.5.0"
x-win = "=5.8.0"
chrono = "=0.4.45"
winapi = { version = "0.3", features = ["winbase"] }
