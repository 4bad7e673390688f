[package]
name = "glb2fbx"
version = "0.1.0"
edition = "2021"
publish = false

[dependencies]
anyhow = "*"
clap = { version = "*", features = ["derive"] }
colored = "*"
console = "*"
fbxcel = { version = "*", features = ["writer"] }
gltf = { version = "*", features = ["import", "utils", "names"] }
indicatif = "*"
walkdir = "*"
