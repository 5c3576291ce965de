[package]
name = "recipe_ld"
version = "0.1.0"
edition = "2021"
publish = false

[dependencies]
serde_json = "1"
reqwest = "*"
scraper = "*"
tokio = { version = "1", features = ["macros", "rt-multi-thread"] }
