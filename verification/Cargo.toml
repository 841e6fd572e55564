[package]
name = "libri"
version = "0.1.0"
edition = "2021"
publish = false

[dependencies]
xml-rs = "*"
zip = "*"
pico-args = "*"
configparser = "*"
tabwriter = "*"
chrono = "*"
