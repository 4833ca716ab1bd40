[package]
name = "lrs_synth"
version = "0.1.0"
edition = "2021"
publish = false

[dependencies]
cpal = "=0.15.3"
midir = "=0.9.1"
rust_lisp = "=0.18.0"
lazy_static = "=1.5.1"
