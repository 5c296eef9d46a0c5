[package]
name = "git-brws"
version = "0.11.12"
edition = "2021"
publish = false

[dependencies]
envy = "0.4"
futures = "0.3"
getopts = "0.2"
lazy_static = "1"
open = "2"
path-slash = "0.1"
reqwest = { version = "0.11", default-features = false, features = ["json", "rustls-tls"] }
serde = { version = "1", features = ["derive"] }
tokio = { version = "1", features = ["rt"] }
url = "2"
