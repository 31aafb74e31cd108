[package]
name = "glutil"
version = "0.1.0"
edition = "2021"
publish = false

[dependencies]
gl = "=0.14.0"
glutin = "=0.29.1"
glm = "=0.2.3"
num-traits = "*"
