[package]
name = "dma_gpio"
version = "0.1.0"
edition = "2021"
publish = false

[dependencies]
libc = "*"
volatile-register = "*"

[dev-dependencies]
byteorder = "*"
