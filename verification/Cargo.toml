[package]
name = "galaxy_graphql"
version = "0.1.0"
edition = "2021"
publish = false

[dependencies]
actix-rt = "=2.15.0"
actix-web = "=4.18.1"
argon2 = { version = "=0.5.3", features = ["std"] }
async-graphql = { version = "=5.0.10", features = ["chrono", "dataloader"] }
async-graphql-actix-web = "=5.0.10"
async-stream = "=0.3.6"
async-trait = "=0.1.92"
bigdecimal = "=0.4.11"
chrono = "=0.4.45"
diesel = { version = "=2.3.14", features = ["postgres", "r2d2", "numeric", "chrono"] }
diesel_migrations = "=2.3.2"
dotenv = "=0.15.0"
futures = "=0.3.34"
http = "=0.2.12"
jsonwebtoken = "=9.3.1"
lazy_static = "=1.5.1"
num-bigint = { version = "=0.4.8", features = ["serde"] }
rdkafka = "=0.36.2"
rust_decimal = "=1.43.0"
rust_decimal_macros = "=1.40.0"
serde = { version = "=1.0.229", features = ["derive"] }
serde_json = "=1.0.154"
strum = { version = "=0.26.3", features = ["derive"] }
strum_macros = "=0.26.4"
