[package]
name = "md2pdf"
version = "0.1.0"
edition = "2021"
publish = false

[dependencies]
pulldown-cmark = { version = "=0.9.6", default-features = false }
clap = { version = "4.4", default-features = false, features = ["std", "cargo", "help", "usage"] }
