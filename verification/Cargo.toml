[package]
name = "ncmdump"
version = "0.1.0"
edition = "2021"
publish = false

[dependencies]
aes = "0.6"
base64 = "0.13"
block-modes = "0.7"
id3 = "*"
metaflac = "*"
serde_json = { version = "1", features = ["preserve_order", "arbitrary_precision"] }
