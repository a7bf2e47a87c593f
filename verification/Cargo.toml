[package]
name = "xkcd_cli"
version = "0.1.0"
edition = "2021"
publish = false

[dependencies]
rand = "0.8"
rand_chacha = "0.3"
serde_json = "1"
url = "2"
serde = { version = "1", features = ["derive"] }
clap = { version = "4", features = ["derive"] }
colored = "2"
reqwest = { version = "0.11", default-features = false, features = ["blocking", "json", "rustls-tls"] }
