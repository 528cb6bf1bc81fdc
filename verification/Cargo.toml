[package]
name = "scap"
version = "0.1.0"
edition = "2021"
publish = false

[dependencies]
dbus = "0.9"
pipewire = "0.8"
windows-capture = "~1.0"
