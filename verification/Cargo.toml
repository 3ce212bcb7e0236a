[package]
name = "tabpeek"
version = "0.1.0"
edition = "2021"
publish = false

[dependencies]
polars = { version = "=0.55.2", default-features = false, features = ["csv", "fmt", "parquet", "random"] }
clap = "=4.6.7"
