[package]
name = "bevy_interned_id"
version = "0.5.0"
edition = "2021"
publish = false

[dependencies]
proc-macro2 = "=1.0.107"
syn = { version = "=2.0.119", features = ["full", "parsing", "printing", "derive"] }
