[package]
name = "srcmv"
version = "0.5.0"
edition = "2021"
publish = false

[dependencies]
serde_json = { version = "1", features = ["preserve_order", "float_roundtrip"] }
serde = { version = "1", features = ["derive"] }
sha2 = "0.10"
url = "2"
clap = { version = "4", features = ["derive"] }
gen-lsp-types = "*"
