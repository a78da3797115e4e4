[package]
name = "calma"
version = "0.1.0"
edition = "2021"
publish = false

[dependencies]
anchor-lang = "0.31"
bytemuck = "1"
solana-sdk-ids = "2"
wasm-bindgen = "0.2"
