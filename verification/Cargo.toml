[package]
name = "isosurface_api"
version = "0.1.0"
edition = "2021"
publish = false

[dependencies]
implicit3d = "=0.16.0"
isosurface = "=0.0.4"
nalgebra = "=0.34.2"
