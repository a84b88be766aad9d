[package]
name = "tmdb_easy"
version = "0.1.0"
edition = "2021"
publish = false

[dependencies]
convert_case = "*"
image = { version = "0.25", default-features = false, features = ["jpeg", "png"] }
reqwest = { version = "0.12", features = ["blocking", "json"] }
serde = { version = "1", features = ["derive"] }
serde_json = "1"
thiserror = "*"
