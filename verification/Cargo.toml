[package]
name = "elus_store"
version = "0.1.0"
edition = "2021"
publish = false

[dependencies]
serde_json = "1"
diesel = { version = "2", features = ["sqlite"] }
dotenvy = "0.15"
