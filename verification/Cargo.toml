[package]
name = "clip_history"
version = "0.1.0"
edition = "2021"
publish = false

[dependencies]
base64 = "=0.22.1"
chrono = { version = "=0.4.45", default-features = false, features = ["std", "clock"] }
image = { version = "=0.25.10", default-features = false, features = ["png"] }
rusqlite = { version = "=0.40.2", features = ["bundled"] }
arboard = "=3.7.0"
clipboard-master = "=4.1.0"
tokio = { version = "1", features = ["sync", "time", "macros", "rt"] }
log = "0.4"
objc2-app-kit = "=0.3.2"
objc2-foundation = "=0.3.2"
core-foundation = "0.10"
