[package]
name = "tachys_font"
version = "0.1.0"
edition = "2021"
publish = false

[dependencies]
skrifa = "*"
tiny-skia = "*"
slotmap = "*"
swash = "*"
memmap2 = "*"
once_map = "*"
walkdir = "*"
log = "*"
thiserror = "*"
winit = "*"
softbuffer = "*"

[dev-dependencies]
write-fonts = "*"
