[package]
name = "soi"
version = "0.1.0"
edition = "2021"
publish = false

[dependencies]
anyhow = "=1.0.104"
dbus = "=0.9.12"
glib = "=0.15.12"
gstreamer = "=0.18.8"
itertools = "=0.10.5"
termion = "=1.5.6"
