[package]
name = "flexstr"
version = "0.1.0"
edition = "2021"
publish = false

[dependencies]
bstr = "1"
serde = { version = "1", features = ["derive"] }
ufmt = "0.2"
ufmt-write = "0.1"

[dev-dependencies]
serde_json = "1"
