[package]
name = "xcfun_eval"
version = "0.1.0"
edition = "2021"
publish = false
