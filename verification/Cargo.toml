[package]
name = "b2creds"
version = "0.1.0"
edition = "2021"
publish = false

[dependencies]
directories = "=6.0.0"
rusqlite = "=0.41.0"
thiserror = "2.0.21"

[dev-dependencies]
tempfile = "3.27.0"
