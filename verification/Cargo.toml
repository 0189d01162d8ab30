[package]
name = "paper"
version = "0.1.0"
edition = "2021"
publish = false

[dependencies]
base64 = "=0.13.1"
jsonwebtoken = "=7.2.0"
serde_json = "=1.0.154"
bson = "1"
mongodb = "1"
serde = { version = "1", features = ["derive"] }
toml = "0.5"
clap = "2"
actix-web = "3"
actix-cors = "0.5"
juniper = "0.15"
juniper_actix = "0.2"
hyper = "0.13"
hyper-tls = "0.4"
futures = "0.3"
async-trait = "0.1"
log = "0.4"
lazy_static = "1"
