[package]
name = "jerry_client"
version = "0.1.0"
edition = "2021"
publish = false

[dependencies]
arboard = { version = "=3.7.0", default-features = false }
chacha20 = "=0.9.1"
clap = { version = "=4.6.7", features = ["derive"] }
crossterm = "=0.27.0"
dialoguer = "=0.11.0"
enigo = "=0.1.3"
eyre = "=0.6.14"
protobuf = "=2.28.0"
rand_core = { version = "=0.5.1", features = ["getrandom"] }
ratatui = "=0.26.3"
serde = { version = "=1.0.229", features = ["derive"] }
sysinfo = "=0.29.11"
tap = "=1.0.1"
thread-priority = "=1.2.0"
toml = "=0.8.23"
tracing = "=0.1.44"
tracing-appender = "=0.2.5"
tracing-subscriber = "=0.3.23"
uuid = { version = "=1.29.0", features = ["v4"] }
windows = { version = "=0.51.1", features = ["Win32_Foundation", "Win32_UI_Input_KeyboardAndMouse", "Win32_UI_TextServices", "Win32_UI_WindowsAndMessaging"] }
x25519-dalek = "=1.2.0"
