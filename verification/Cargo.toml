[package]
name = "users"
version = "0.8.0"
edition = "2021"
publish = false

[dependencies]
libc = "=0.2.191"
redox_users = "=0.5.3"
redox_syscall = "=0.2.16"
