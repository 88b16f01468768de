[package]
name = "cfpack"
version = "0.1.0"
edition = "2021"
publish = false

[dependencies]
crossbeam-channel = "*"
parking_lot = "*"
minreq = { version = "*", features = ["https"] }
serde_json = "*"
serde = { version = "*", features = ["derive"] }
serde_repr = "*"
clap = { version = "*", features = ["derive"] }
zip = { version = "*", default-features = false, features = ["deflate"] }
regex = "*"

[dev-dependencies]
crossbeam-utils = "*"
