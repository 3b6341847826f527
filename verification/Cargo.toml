[package]
name = "vocab_train"
version = "0.1.0"
edition = "2021"
publish = false

[dependencies]
clap = { version = "*", features = ["derive"] }
rocksdb = "*"
tokenizers = "*"
