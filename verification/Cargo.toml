[package]
name = "crustls"
version = "0.1.0"
edition = "2021"
publish = false

[dependencies]
libc = "=0.2.191"
rustls = "=0.19.1"
rustls-pemfile = "=0.2.1"

[dev-dependencies]
webpki = "=0.21.4"
