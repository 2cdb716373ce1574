[package]
name = "pdf_generator"
version = "0.1.0"
edition = "2021"
publish = false

[dependencies]
handlebars = "*"
rust-ini = "*"
serde_json = "*"
uuid = { version = "*", features = ["v4"] }
