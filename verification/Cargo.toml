[package]
name = "macos_open"
version = "0.1.0"
edition = "2021"
publish = false

[dependencies]
core-foundation = "0.6"
core-foundation-sys = "0.6"
fast_escape = "0.1"
fast_fmt = "0.1"
file-metadata = "*"
launch-services = "0.0.2"
url = "2"
void = "1"
