[package]
name = "gdm"
version = "0.1.0"
edition = "2021"
publish = false

[dependencies]
anyhow = "*"
clap = { version = "*", features = ["derive"] }
directories = "*"
dotenvy = "*"
dunce = "*"
futures-util = "*"
indicatif = "*"
path-clean = "*"
rand = "*"
reqwest = { version = "*", default-features = false, features = ["json"] }
serde = { version = "*", features = ["derive"] }
serde_json = "*"
thiserror = "*"
tokio = { version = "*", features = ["macros", "rt-multi-thread", "fs", "io-util"] }
zip = { version = "*", default-features = false, features = ["deflate"] }
