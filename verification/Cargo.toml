[package]
name = "url_uploader"
version = "0.1.0"
edition = "2021"
publish = false

[dependencies]
anyhow = "*"
async-read-progress = "*"
bytesize = "*"
chrono = "*"
dashmap = "=6.2.1"
futures = "*"
glass_pumpkin = "=2.0.0-rc0"
grammers-client = { version = "=0.7.0", features = ["html"] }
log = "*"
reqwest = { version = "*", default-features = false, features = ["rustls-tls", "stream"] }
scopeguard = "*"
stream-cancel = "=0.8.2"
tokio = { version = "*", features = ["macros", "rt-multi-thread", "signal", "sync", "time"] }
tokio-util = { version = "*", features = ["compat"] }
url = "=2.5.8"
