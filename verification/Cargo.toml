[package]
name = "pot_conditioner"
version = "0.1.0"
edition = "2021"
publish = false

[dependencies]
backlash = "*"
dyn-smooth = "*"
