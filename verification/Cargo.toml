[package]
name = "launcher"
version = "0.1.0"
edition = "2021"
publish = false

[dependencies]
ansi-parser = "0.9"
directories-next = "2"
iced = { version = "0.12", default-features = false, features = ["tokio", "advanced"] }
idna_adapter = "=1.1.0"
rfd = { version = "0.14", default-features = false, features = ["xdg-portal", "tokio"] }
serde = { version = "1", features = ["derive"] }
serde_json = "1"
tokio = { version = "1", features = ["rt-multi-thread", "process", "io-util", "fs", "sync"] }
tokio-stream = "0.1"
