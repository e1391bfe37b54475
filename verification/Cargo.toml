[package]
name = "anilist_oauth"
version = "0.1.0"
edition = "2021"
publish = false

[dependencies]
url = "*"
nanoid = "*"
serde_json = "*"
serde = { version = "*", features = ["derive"] }
anyhow = "*"
reqwest = { version = "*", default-features = false, features = ["json"] }
rocket = { version = "0.5", features = ["secrets"] }
sqlx = { version = "*", default-features = false, features = ["postgres", "runtime-tokio"] }
