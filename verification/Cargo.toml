[package]
name = "you_can"
version = "0.1.0"
edition = "2021"
publish = false

[dependencies]
syn = { version = "*", features = ["full", "fold", "visit", "extra-traits"] }
proc-macro2 = "*"
quote = "*"
prettyplease = "*"
