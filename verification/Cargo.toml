[package]
name = "text_editor"
version = "0.1.0"
edition = "2021"
publish = false

[dependencies]
ropey = { version = "=1.6.1", default-features = false }
libc = "=0.2.190"
crossbeam-channel = "=0.5.17"
