[package]
name = "wal_fresh"
version = "0.1.0"
edition = "2021"
publish = false

[dependencies]
libsql = { version = "*", default-features = false, features = ["core"] }
tempfile = "*"
