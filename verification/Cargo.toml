[package]
name = "hephaestus_wgpu"
version = "0.1.0"
edition = "2021"
publish = false

[dependencies]
wgpu = "*"
bytemuck = "*"
smallvec = "*"
leto = "*"
leto-ops = "*"
eunomia = "*"
moirai = "*"
moirai-gpu = "*"
moirai-sync = "*"

[dev-dependencies]
aequitas = "*"
