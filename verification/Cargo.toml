[package]
name = "maven_downloader"
version = "0.1.0"
edition = "2021"
publish = false

[dependencies]
async-recursion = "*"
dirs = "*"
quick-xml = { version = "*", features = ["serialize"] }
reqwest = { version = "*", default-features = false, features = ["rustls-tls"] }
serde = { version = "*", features = ["derive"] }
tokio = { version = "*", features = ["macros", "rt-multi-thread"] }
