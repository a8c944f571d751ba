[package]
name = "magic_loc_protocol"
version = "0.1.0"
edition = "2021"
publish = false

[dependencies]
heapless = "=0.8.0"
dw3000 = "=0.1.4"
