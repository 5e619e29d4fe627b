[package]
name = "resource_site_core"
version = "0.1.0"
edition = "2021"
publish = false

[dependencies]
uuid = { version = "*", features = ["v4"] }
salvo = { version = "*", features = ["oapi", "cors", "logging", "catch-panic"] }
