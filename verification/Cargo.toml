[package]
name = "mssqlrust"
version = "0.1.0"
edition = "2021"
publish = false

[dependencies]
anyhow = "1"
async-trait = "0.1"
chrono = { version = "0.4", default-features = false, features = ["std"] }
futures = "0.3"
rust_decimal = { version = "1", default-features = false, features = ["std"] }
tiberius = { version = "0.12", default-features = false, features = ["tds73", "chrono", "rust_decimal"] }
tokio = { version = "1", features = ["net", "rt", "macros"] }
tokio-util = { version = "0.7", features = ["compat"] }
uuid = "1"
