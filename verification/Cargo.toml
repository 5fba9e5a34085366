[package]
name = "pw_monitor"
version = "0.1.0"
edition = "2021"
publish = false

[dependencies]
anyhow = "=1.0.104"
bitflags = "=2.13.2"
clap = { version = "=4.6.7", features = ["derive"] }
libc = "=0.2.191"
libspa-sys = "=0.10.1"
pipewire-sys = "=0.10.1"
