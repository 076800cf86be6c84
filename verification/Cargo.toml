[package]
name = "sqruff_lib"
version = "0.1.0"
edition = "2021"
publish = false

[dependencies]
ahash = "0.8"
dyn-clone = "1"
fancy-regex = "0.13"
itertools = "0.12"
smol_str = "0.2"
strum_macros = "0.26"
