[package]
name = "node-mimimi"
version = "0.1.0"
edition = "2021"
publish = false

[dependencies]
base64 = "0.22"
rand = "0.8"
mail-parser = "0.9"
log = "0.4"
