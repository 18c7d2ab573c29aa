[package]
name = "twoliter_tools"
version = "0.1.0"
edition = "2021"
publish = false

[dependencies]
clap = { version = "4", features = ["derive"] }
crc32fast = "1"
duct = "0.13"
filetime = "0.2"
reqwest = { version = "0.12", default-features = false }
snafu = "0.8"
