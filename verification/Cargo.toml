[package]
name = "pl011_uart"
version = "0.1.0"
edition = "2021"
publish = false

[dependencies]
embedded-hal-nb = "1"
embedded-io = "0.6"
volatile-register = "0.2"
