[package]
name = "tex_codec"
version = "0.1.0"
edition = "2021"
publish = false

[dependencies]
gdeflate = "=0.4.1"
ddsfile = "=0.5.2"
image_dds = "=0.7.2"
image = "=0.25.10"
num-traits = "=0.2.19"
