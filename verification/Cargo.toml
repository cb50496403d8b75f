[package]
name = "market_data_source"
version = "0.3.0"
edition = "2021"
publish = false

[dependencies]
rust_decimal = "1"
rand = "0.8"
rand_distr = "0.4"
serde = { version = "1", features = ["derive"] }
serde_json = "1"
csv = "1"
dotenvy = "0.15"
