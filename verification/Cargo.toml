[package]
name = "imp_vec"
version = "0.1.0"
edition = "2021"
publish = false

[dependencies]
orx-pinned-vec = "=4.1.0"
orx-split-vec = "=4.1.1"
orx-fixed-vec = "=4.1.0"
orx-concurrent-iter = "=4.3.1"
