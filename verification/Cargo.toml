[package]
name = "trustbrowser"
version = "0.1.0"
edition = "2021"
publish = false

[dependencies]
gdk = "*"
gtk = "*"
webkit2gtk = "*"
