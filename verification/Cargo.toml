[package]
name = "classcard"
version = "0.1.0"
edition = "2021"
publish = false

[dependencies]
http = "=1.5.0"
serde = { version = "=1.0.229", features = ["derive"] }
serde_json = "=1.0.154"
tokio = { version = "=1.54.1", features = ["full"] }
tokio-websockets = { version = "=0.13.3", features = ["client", "getrandom", "aws_lc_rs", "rustls-webpki-roots"] }
futures-util = { version = "=0.3.34", features = ["sink"] }
reqwest = { version = "=0.13.5", features = ["form"] }
clap = { version = "=4.6.7", features = ["derive"] }
colored = "=3.1.1"
