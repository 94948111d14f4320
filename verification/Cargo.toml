[package]
name = "ashlang_ide"
version = "0.1.0"
edition = "2021"

[dependencies]
scalarff = { version = "=0.8.1", features = ["alt_bn128", "curve25519", "oxfoi"] }
strip-ansi-escapes = "=0.2.1"
