[package]
name = "eco_clipboard"
version = "0.1.0"
edition = "2021"
publish = false

[dependencies]
chrono = "0.4"
clipboard-rs = "*"
enigo = { version = "*", default-features = false, features = ["x11rb"] }
log = "0.4"
serde = { version = "1", features = ["derive"] }
serde_json = "1"
tokio = { version = "1", features = ["rt", "sync", "time"] }
winapi = { version = "0.3", features = ["winuser"] }
