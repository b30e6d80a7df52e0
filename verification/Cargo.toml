[package]
name = "perf-event"
version = "0.1.0"
edition = "2021"
publish = false

[dependencies]
bytes = "1"
libc = "0.2"
memmap2 = "0.9"
perf-event-open-sys = "*"
bitflags = "2"
c-enum = "*"
