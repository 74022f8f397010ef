[package]
name = "agpt_we"
version = "0.1.0"
edition = "2021"
publish = false

[dependencies]
urlencoding = "*"
headless_chrome = "*"
