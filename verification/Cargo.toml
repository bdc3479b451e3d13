[package]
name = "wgpu_sort"
version = "0.1.0"
edition = "2021"
publish = false

[dependencies]
wgpu = "0.19"
bytemuck = "1"
log = "0.4"
futures-intrusive = "0.5"

[dev-dependencies]
naga = { version = "0.19", features = ["wgsl-in"] }
