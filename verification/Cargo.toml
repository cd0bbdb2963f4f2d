[package]
name = "doc_render"
version = "0.1.0"
edition = "2021"
publish = false

[dependencies]
tui = { version = "0.19", default-features = false }
ropey = "1.6"
unicode-width = "0.1"
