[package]
name = "rust_lessons"
version = "0.1.0"
edition = "2021"
publish = false

[dependencies]
syn = { version = "=2.0.119", default-features = false, features = ["derive", "parsing"] }

[dev-dependencies]
proc-macro2 = { version = "=1.0.107", default-features = false }
