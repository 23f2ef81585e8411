[package]
name = "embedded_gui"
version = "0.1.0"
edition = "2021"
publish = false

[dependencies]
embedded-graphics = "0.7"
embedded-text = "0.5"
heapless = "0.7"
object-chain = "0.1"
