[package]
name = "rss_parser"
version = "0.1.0"
edition = "2021"
publish = false

[dependencies]
roxmltree = "*"
reqwest = { version = "*", default-features = false }
tokio = { version = "*", features = ["macros", "rt-multi-thread"] }
