[package]
name = "gitreal"
version = "0.1.0"
edition = "2021"
publish = false

[dependencies]
actix-web = { version = "4", default-features = false, features = ["macros", "cookies"] }
actix-identity = "0.7"
anyhow = "1"
chrono = { version = "0.4", default-features = false, features = ["clock", "std", "serde"] }
hex = "0.4"
log = "0.4"
oauth2 = { version = "4", default-features = false }
rand = "0.8"
serde = { version = "1", features = ["derive"] }
sqlx = { version = "0.7", default-features = false, features = ["postgres", "runtime-tokio", "chrono"] }
