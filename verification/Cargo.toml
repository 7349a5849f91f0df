[package]
name = "hartex"
version = "0.1.0"
edition = "2021"
publish = false

[dependencies]
chrono = "0.4"
dashmap = "5"
unic-langid = "0.9"
sea-orm = { version = "0.11", default-features = false, features = ["macros", "with-chrono"] }
sqlx = { version = "0.7", default-features = false, features = ["postgres", "runtime-tokio"] }
log = "0.4"
twilight-model = "0.15"
