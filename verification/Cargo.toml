[package]
name = "graphics_lib"
version = "0.1.0"
edition = "2021"
publish = false

[dependencies]
bvh = "0.7"
glam = "0.23"
kd-tree = "0.5"
rand = "0.8"
rayon = "1"
typenum = "1"
