[package]
name = "zellij-utils"
version = "0.1.0"
edition = "2021"
publish = false

[dependencies]
kdl = "4"
miette = { version = "5", features = ["fancy"] }
percent-encoding = "2"
serde = { version = "1", features = ["derive"] }
url = "2"
