[package]
name = "tether"
version = "0.3.0"
edition = "2021"
publish = false

[dependencies]
glib = "=0.18.5"
gtk = "=0.18.2"
webkit2gtk = { version = "=2.0.2", features = ["v2_22"] }
javascriptcore-rs = "=1.1.2"
cocoa = "=0.27.0"
objc = "=0.2.7"
dispatch = "=0.2.0"
