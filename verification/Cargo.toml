[package]
name = "lemmy_search"
version = "0.1.0"
edition = "2021"
publish = false

[dependencies]
chrono = "=0.4.45"
uuid = { version = "=1.29.0", features = ["v4"] }
postgres = { version = "=0.19.14", features = ["with-uuid-1", "with-chrono-0_4"] }
r2d2_postgres = "=0.18.2"
deadpool = "=0.13.1"
deadpool-r2d2 = { version = "=0.4.2", features = ["rt_tokio_1"] }
tokio = { version = "=1.54.1", features = ["rt-multi-thread", "macros"] }
actix-web = { version = "=4.18.1", default-features = false, features = ["macros"] }
actix-files = "=0.6.10"
