[package]
name = "rget"
version = "0.1.0"
edition = "2021"
publish = false

[dependencies]
clap = "2"
console = "0.15"
ctrlc = "3"
indicatif = "0.17"
reqwest = { version = "0.12", default-features = false, features = ["blocking"] }
