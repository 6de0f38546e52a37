[package]
name = "pluto"
version = "0.1.0"
edition = "2021"
publish = false

[dependencies]
msp430-rt = "*"
msp430fr6972 = "*"
