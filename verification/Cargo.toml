[package]
name = "ajedrez_svc"
version = "0.1.0"
edition = "2021"
publish = false

[dependencies]
anyhow = "=1.0.104"
chrono = { version = "=0.4.45", features = ["serde"] }
clap = "=4.6.7"
confik = "=0.15.13"
diesel = { version = "=2.3.14", features = ["sqlite", "chrono", "returning_clauses_for_sqlite_3_35"] }
diesel_migrations = "=2.3.2"
dotenvy = "=0.15.7"
env_logger = "=0.11.11"
log = "=0.4.34"
reqwest = { version = "=0.13.5", default-features = false, features = ["blocking"] }
rocket = { version = "=0.5.1", features = ["json", "uuid"] }
rocket_okapi = { version = "=0.9.0", features = ["swagger", "rapidoc", "uuid", "rocket_ws"] }
rocket_ws = "=0.1.1"
serde = { version = "=1.0.229", features = ["derive"] }
tabled = "=0.22.0"
uuid = "=1.29.0"
