[package]
name = "simple_color"
version = "0.1.0"
edition = "2021"
publish = false

[dependencies]
num = "*"
approx = "*"
angular-units = "*"
