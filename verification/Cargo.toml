[package]
name = "feroxbuster"
version = "0.1.0"
edition = "2021"
publish = false

[dependencies]
uuid = { version = "*", features = ["v4"] }
indicatif = "*"
console = "*"
ctrlc = "*"
tokio = { version = "*", features = ["rt", "time", "macros"] }
log = "*"
