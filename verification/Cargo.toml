[package]
name = "crash_handling"
version = "0.1.0"
edition = "2021"
publish = false

[dependencies]
scroll = "0.12"
minidump-common = "0.26"
minidump = "0.26"
minidumper = "*"
libc = "0.2"
mach2 = "*"
windows-sys = { version = "*", features = ["Win32_Foundation", "Win32_System_Diagnostics_Debug", "Win32_System_Threading", "Win32_System_Kernel"] }
parking_lot = "0.12"
sadness-generator = "*"
clap = { version = "3", features = ["derive"] }
anyhow = "1"
tracing-subscriber = "0.3"
rayon = "1"
cfg-if = "1"
