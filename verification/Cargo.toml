[package]
name = "yamble"
version = "0.1.0"
edition = "2021"
publish = false

[dependencies]
serenity = { version = "=0.12.5", default-features = false, features = ["builder", "cache", "client", "gateway", "http", "model", "utils", "rustls_backend", "voice"] }
uuid = { version = "=1.29.0", features = ["v4"] }
youtube_dl = { version = "=0.10.0", features = ["tokio", "downloader-rustls-tls"] }
tokio = { version = "=1.54.1", features = ["macros", "rt-multi-thread", "sync"] }
tracing = "=0.1.44"
diesel = { version = "2", default-features = false, features = ["postgres_backend", "numeric"] }
diesel-async = { version = "*", features = ["postgres"] }
bigdecimal = "0.4"
