[package]
name = "predict-duel"
version = "0.1.0"
edition = "2021"
publish = false

[dependencies]
anchor-lang = { version = "0.32.1", features = ["init-if-needed"] }
