[package]
name = "deskwatch"
version = "0.1.0"
edition = "2021"
publish = false

[dependencies]
libc = "0.2"
slog = "2"
x11-dl = "2"
