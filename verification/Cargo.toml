[package]
name = "accounting_bot"
version = "0.1.0"
edition = "2021"
publish = false

[dependencies]
async-trait = "=0.1.92"
chrono = { version = "=0.4.45", features = ["serde"] }
dotenvy = "=0.15.7"
log = "=0.4.34"
reqwest = { version = "=0.13.5", default-features = false, features = ["json"] }
rust_decimal = { version = "=1.43.0", features = ["serde-with-float"] }
serde = { version = "=1.0.229", features = ["derive"] }
serde_json = "=1.0.154"
takecell = "=0.1.1"
teloxide = { version = "=0.17.0", features = ["macros"] }
tokio = { version = "=1.54.1", features = ["macros", "rt-multi-thread", "sync"] }
uuid = { version = "=1.29.0", features = ["serde"] }
