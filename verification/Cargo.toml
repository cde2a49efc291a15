[package]
name = "bookmarkt"
version = "0.1.0"
edition = "2021"

[dependencies]
kuchiki = "0.8"
serde_json = "1"
