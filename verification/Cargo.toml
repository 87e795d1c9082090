[package]
name = "lvgl-codegen"
version = "0.1.0"
edition = "2021"
publish = false

[dependencies]
Inflector = "0.11"
regex = "1"
syn = "1"
proc-macro2 = "1"
quote = "1"
clang = { version = "1", features = ["runtime"] }
