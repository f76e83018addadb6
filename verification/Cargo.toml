[package]
name = "rustman"
version = "0.1.0"
edition = "2021"
publish = false

[dependencies]
clap = "*"
hyper = { version = "0.14", features = ["client", "http1", "http2", "tcp"] }
hyper-tls = "0.5"
tokio = { version = "1", features = ["macros", "rt-multi-thread", "io-std", "io-util"] }
