[package]
name = "actix_fs"
version = "0.1.0"
edition = "2021"
publish = false

[dependencies]
actix-threadpool = "*"
futures = "*"
