[package]
name = "try_macro"
version = "0.1.0"
edition = "2021"
publish = false

[dependencies]
stable_try_trait_v2 = "*"
syn = { version = "2", features = ["full", "visit-mut"] }
quote = "1"
proc-macro2 = "1"
