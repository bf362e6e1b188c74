[package]
name = "pam_chat"
version = "0.1.0"
edition = "2021"
publish = false

[dependencies]
libc = "=0.2.190"
libloading = "=0.9.0"
oneshot = { version = "=0.2.1", features = ["std", "async"] }
rtsc = "=0.4.5"
