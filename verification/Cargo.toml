[package]
name = "breweri"
version = "0.1.0"
edition = "2021"
publish = false

[dependencies]
arc-swap = "*"
atomic = "*"
compact_strings = "*"
crossterm = "*"
nohash-hasher = "*"
parking_lot = "*"
tokio = { version = "*", features = ["macros", "process", "rt-multi-thread", "time"] }
tui = "*"
