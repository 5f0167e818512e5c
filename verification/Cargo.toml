[package]
name = "rustautogui"
version = "0.1.0"
edition = "2021"
publish = false

[dependencies]
image = { version = "0.25", default-features = false, features = ["png"] }
rustfft = "6"
crossbeam-channel = "0.5"
rayon = "1"
waycap-rs = "*"
x11 = { version = "2", features = ["xlib", "xtest"] }
