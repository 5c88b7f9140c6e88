[package]
name = "pika_first_setup"
version = "0.1.0"
edition = "2021"
publish = false

[dependencies]
regex = "1"
serde_json = "1"
gtk4 = { version = "0.8", features = ["v4_12"] }
libadwaita = { version = "0.6", features = ["v1_4"] }
gdk4 = "0.8"
gio = "0.19"
glib = "0.19"
async-channel = "2"
duct = "0.13"
os_pipe = "1"
gettext-rs = "0.7"
rust-i18n = "3"
single-instance = "0.3"
