[package]
name = "justviewer"
version = "0.1.0"
edition = "2021"
publish = false

[dependencies]
cocoa = "0.26"
objc = "0.2"
url = "=2.5.8"
urlencoding = "=2.1.3"
