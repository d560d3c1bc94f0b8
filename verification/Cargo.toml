[package]
name = "owned_ref"
version = "0.1.0"
edition = "2021"
publish = false

[dependencies]
clear_on_drop = "*"
