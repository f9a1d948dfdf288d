[package]
name = "wordcalc"
version = "0.1.0"
edition = "2021"
publish = false

[dependencies]
rustc_apfloat = "*"
fast-float = "*"
serde = { version = "*", features = ["derive"] }
serde_json = "*"
