[package]
name = "reactor_registration"
version = "0.1.0"
edition = "2021"
publish = false

[dependencies]
polling = "3"
