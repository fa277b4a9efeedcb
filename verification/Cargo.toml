[package]
name = "http_checker"
version = "0.1.0"
edition = "2021"
publish = false

[dependencies]
chrono = "*"
clap = { version = "4", features = ["derive"] }
clap-duration = "*"
colored = "*"
duration-human = "*"
futures = "*"
reqwest = "0.12"
thiserror = "*"
tokio = { version = "1", features = ["macros", "rt-multi-thread"] }
