[package]
name = "smart_denoise"
version = "0.1.0"
edition = "2021"
publish = false

[dependencies]
bytemuck = { version = "1", features = ["derive"] }
byteorder = "1"
clap = { version = "3.2", features = ["derive"] }
handlebars = "4"
num-traits = "0.2"
png = "0.17"
vulkano = "0.29"
vulkano-shaders = "0.29"
