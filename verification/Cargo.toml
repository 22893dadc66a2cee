[package]
name = "starry_core"
version = "0.1.0"
edition = "2021"
publish = false

[dependencies]
buddy_system_allocator = "*"
