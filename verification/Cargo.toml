[package]
name = "nutt_web_macro"
version = "0.1.0"
edition = "2021"
publish = false

[dependencies]
syn = { version = "*", features = ["full"] }
quote = "*"
proc-macro2 = "*"
walkdir = "*"
toml = "*"
cargo_toml = "*"
nutt-conf-parser = "*"
