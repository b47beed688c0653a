[package]
name = "rtsched_board"
version = "0.1.0"
edition = "2021"
publish = false

[dependencies]
cortex-m = "*"
cortex-m-rt = "*"
lpc55-hal = "*"
rtt-target = "*"
panic-halt = "*"
