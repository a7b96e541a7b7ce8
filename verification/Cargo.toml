[package]
name = "quasar_dice"
version = "0.1.0"
edition = "2021"
publish = false

[dependencies]
quasar-lang = "*"
sha2 = "0.10"
