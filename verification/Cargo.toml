[package]
name = "mimicry"
version = "0.1.0"
edition = "2021"

[dependencies]
once_cell = "1"
parking_lot = "0.12"
thread_local = "1.1"
