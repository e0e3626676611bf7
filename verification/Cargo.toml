[package]
name = "pathfinder_hal"
version = "0.1.0"
edition = "2021"
publish = false

[dependencies]
gfx-hal = "0.2"
gfx-backend-vulkan = "0.2"
usvg = "0.7"
image = "0.21"
winit = "0.19"
log = "0.4"
bitflags = "1"
shaderc = "0.5"
rustache = "*"
takeable-option = "*"
