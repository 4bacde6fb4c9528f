[package]
name = "download_manager"
version = "0.1.0"
edition = "2021"
publish = false

[dependencies]
url = "2"
uuid = { version = "1", features = ["v4"] }
bytesize = "*"
ratatui = "*"
tokio = { version = "1", features = ["full"] }
reqwest = { version = "0.12", default-features = false, features = ["stream", "rustls-tls"] }
color-eyre = "0.6"
directories = "*"
futures = "0.3"
tokio-stream = "0.1"
crossterm = "*"
