[package]
name = "book_splitter"
version = "0.1.0"
edition = "2021"
publish = false

[dependencies]
regex = "*"
crossbeam-channel = "*"
tokio = { version = "*", default-features = false, features = ["rt-multi-thread", "fs", "io-util"] }
