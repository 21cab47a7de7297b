[package]
name = "authgate"
version = "0.1.0"
edition = "2021"
publish = false

[dependencies]
argon2 = "=0.6.0"
jsonwebtoken = { version = "=11.1.0", features = ["rust_crypto"] }
chrono = { version = "=0.4.45", features = ["serde"] }
serde_json = "=1.0.151"
serde = { version = "*", features = ["derive"] }
actix-web = "*"
actix-web-httpauth = "*"
diesel = { version = "*", features = ["sqlite", "r2d2", "chrono", "returning_clauses_for_sqlite_3_35"] }
libsqlite3-sys = { version = "*", features = ["bundled"] }
dotenvy = "*"
env_logger = "*"
log = "*"
