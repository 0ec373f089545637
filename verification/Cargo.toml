[package]
name = "rogue"
version = "0.1.0"
edition = "2021"
publish = false

[dependencies]
rltk = "0.8"
specs = { version = "0.20", features = ["serde"] }
specs-derive = "0.4"
serde = { version = "1", features = ["derive"] }
serde_json = "1"
log = "0.4"
take-until = "*"
