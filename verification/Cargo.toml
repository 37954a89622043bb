[package]
name = "screeps_structure"
version = "0.1.0"
edition = "2021"
publish = false

[dependencies]
stdweb = { version = "0.4", default-features = false }
