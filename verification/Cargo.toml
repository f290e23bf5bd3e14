[package]
name = "turbohash"
version = "0.1.0"
edition = "2021"
publish = false

[dependencies]
crc32fast = "1"
md-5 = "0.10"
ring = "0.17"
xxhash-rust = { version = "0.8", features = ["xxh3"] }
hex = "0.4"
num_cpus = "1"
rusqlite = { version = "*", features = ["bundled"] }
r2d2 = "0.8"
r2d2_sqlite = "*"
crossbeam-channel = "0.5"
rayon = "1"
walkdir = "2"
dunce = "1"
memmap2 = "0.9"
dirs = "*"
humansize = "2"
eframe = { version = "0.31", default-features = false, features = ["glow", "default_fonts", "x11"] }
egui = "0.31"
egui_extras = "0.31"
rfd = "*"
windows-sys = { version = "*", features = ["Win32_System_SystemInformation"] }
