[package]
name = "greeter"
version = "0.1.0"
edition = "2021"
publish = false

[dependencies]
libc = "0.2"
pam-sys = "0.5"
users = "0.11"
x11rb = "0.13"
winit = "0.24"
