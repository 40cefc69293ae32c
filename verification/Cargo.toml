[package]
name = "ads129x"
version = "0.1.0"
edition = "2021"
publish = false

[dependencies]
bitfield = "0.13"
embedded-hal = "0.2"
nb = "1"

[dev-dependencies]
embedded-hal-mock = "0.8"
