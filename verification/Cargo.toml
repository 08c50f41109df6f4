[package]
name = "mav"
version = "0.1.0"
edition = "2021"
publish = false

[dependencies]
duct = "*"
which = "*"
colored = "*"
clap = "2"
clap-nested = "*"
dialoguer = "*"
reqwest = { version = "*", default-features = false, features = ["rustls-tls", "stream"] }
tokio = { version = "*", features = ["full"] }
futures = "*"
indicatif = "*"
