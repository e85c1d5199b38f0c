[package]
name = "cf-ddns"
version = "0.1.0"
edition = "2021"
publish = false

[dependencies]
anyhow = "=1.0.104"
clap = { version = "=4.6.7", features = ["derive"] }
futures = "=0.3.34"
reqwest = { version = "=0.12.28", default-features = false, features = ["json", "rustls-tls"] }
serde = { version = "=1.0.229", features = ["derive"] }
serde_json = "=1.0.154"
serde_with = "=3.24.0"
serde_yaml = "=0.9.34"
tokio = { version = "=1.54.1", features = ["macros", "rt", "signal", "time"] }
tokio-stream = { version = "=0.1.19", features = ["time"] }
tracing = "=0.1.44"
tracing-appender = "=0.2.5"
tracing-subscriber = "=0.3.23"
windows = { version = "=0.52.0", features = ["Wdk_System_SystemInformation", "Wdk_System_Threading", "Win32_Foundation", "Win32_Security", "Win32_System_Services", "Win32_System_Threading", "Win32_System_WindowsProgramming"] }
