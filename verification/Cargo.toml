[package]
name = "deadpool-libsql"
version = "0.1.0"
edition = "2021"
publish = false

[dependencies]
deadpool = { version = "0.12", default-features = false, features = ["managed", "rt_tokio_1"] }
libsql = { version = "0.9", default-features = false, features = ["core"] }

[dev-dependencies]
tokio = { version = "1", features = ["rt", "rt-multi-thread", "time"] }
