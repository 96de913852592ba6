[package]
name = "twlu"
version = "0.1.0"
edition = "2021"
publish = false

[dependencies]
clap = "4"
data-encoding = "2"
serde = { version = "1", features = ["derive"] }
ureq = { version = "2", features = ["json"] }
