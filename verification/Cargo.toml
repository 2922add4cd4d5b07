[package]
name = "gb_mbc"
version = "0.1.0"
edition = "2021"
publish = false

[dependencies]
embassy-rp = { version = "*", features = ["rp235xa"] }
