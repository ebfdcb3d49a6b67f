[package]
name = "scene_graph"
version = "0.1.0"
edition = "2021"
publish = false

[dependencies]
glam = "=0.29.3"
glium = "=0.36.0"
