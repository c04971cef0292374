[package]
name = "butler_registry"
version = "0.1.0"
edition = "2021"
publish = false

[dependencies]
bevy_app = "0.15"
bevy_ecs = "0.15"
bevy_log = "0.15"
deluxe = "0.5"
inventory = "0.3"
itertools = "0.14"
linkme = "0.3"
proc-macro-crate = "3"
proc-macro2 = "1"
quote = "1"
sha256 = { version = "1", default-features = false }
syn = { version = "2", features = ["full", "extra-traits"] }
