[package]
name = "bm13xx"
version = "0.1.0"
edition = "2021"
publish = false

[dependencies]
fugit = "0.3"
hash32 = "0.3"
heapless = "0.8"
