[package]
name = "order_book_engine"
version = "0.1.2"
edition = "2021"
publish = false

[dependencies]
arrow = { version = "*", default-features = false, features = ["ipc"] }
parquet = { version = "*", default-features = false, features = ["arrow"] }
memmap2 = "*"
