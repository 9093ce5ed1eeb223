[package]
name = "clean_rust"
version = "0.1.0"
edition = "2021"
publish = false

[dependencies]
syn = { version = "2", features = ["full", "visit", "visit-mut"] }
prettyplease = "0.2"
proc-macro2 = "1"
quote = "1"
solana-program = "1.18"
