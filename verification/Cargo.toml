[package]
name = "sir"
version = "0.1.0"
edition = "2021"
publish = false

[dependencies]
rsass = "*"
rand = "0.8"
litrs = "*"
proc-macro2 = "1"
quote = "1"
once_cell = "1"
dioxus = "0.3"
