[package]
name = "etag_actix_middleware"
version = "0.1.0"
edition = "2021"
publish = false

[dependencies]
actix-web = { version = "4", default-features = false }
crc32fast = "1"
futures-util = "0.3"
