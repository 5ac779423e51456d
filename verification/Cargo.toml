[package]
name = "steering_behaviours"
version = "0.1.0"
edition = "2021"
publish = false

[dependencies]
rand = "0.8"
glam = "0.20"
log = "0.4"
simple_logger = "2"
ggez = "0.7"
