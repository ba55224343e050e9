[package]
name = "anchor_looping"
version = "0.1.0"
edition = "2021"
publish = false

[dependencies]
const-crypto = "=0.3.0"
anchor-lang = "=0.31.2"
anchor-spl = "=0.31.2"
