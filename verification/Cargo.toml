[package]
name = "jsonkdl"
version = "0.1.0"
edition = "2021"
publish = false

[dependencies]
kdl = { version = "=6.5.0", features = ["v1"] }
serde_json = { version = "=1.0.146", features = ["arbitrary_precision", "preserve_order"] }
