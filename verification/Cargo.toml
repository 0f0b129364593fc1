[package]
name = "httpcli"
version = "0.1.0"
edition = "2021"
publish = false

[dependencies]
url = "2"
serde_json = "1"
reqwest = { version = "0.12", default-features = false, features = ["blocking"] }
structopt = "0.3"
strum = "0.26"
strum_macros = "0.26"
