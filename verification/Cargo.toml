[package]
name = "spelldawn"
version = "0.1.0"
edition = "2021"
publish = false

[dependencies]
enumset = "1"
rand = "=0.8.8"
roxmltree = "=0.20.0"
strum_macros = "0.26"
