[package]
name = "input_simulation"
version = "0.1.0"
edition = "2021"
publish = false

[dependencies]
x11 = { version = "=2.21.0", features = ["xlib", "xtest"] }
core-graphics = { version = "=0.22.3", features = ["highsierra"] }
objc = "=0.2.7"
lazy_static = "=1.5.1"
