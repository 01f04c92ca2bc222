[package]
name = "cl_generic_read_buf"
version = "0.1.0"
edition = "2021"
publish = false

[dependencies]
cl-generic-vec = "*"
