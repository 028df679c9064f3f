[package]
name = "orbit_controls"
version = "0.1.0"
edition = "2021"
publish = false

[dependencies]
android_glue = "*"
cgmath = "*"
image = "*"
noise = "*"
piston = "*"
piston-texture = "*"
piston2d-graphics = "*"
piston2d-opengl_graphics = "*"
