[package]
name = "katey"
version = "0.1.0"
edition = "2021"
publish = false

[dependencies]
rustls = "=0.21.12"
rustls-pemfile = "=1.0.4"
tokio = { version = "=1.53.2", features = ["rt", "rt-multi-thread", "net", "io-util", "io-std", "signal", "time", "sync", "macros"] }
tokio-rustls = "=0.24.1"
futures = "=0.3.34"
clap = "=4.6.7"
rcgen = { version = "=0.11.3", features = ["x509-parser"] }
