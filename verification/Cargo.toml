[package]
name = "watchable-rs"
version = "0.1.0"
edition = "2021"
publish = false

[dependencies]
crossbeam = "=0.8.5"
futures-lite = "=2.6.1"
parking_lot = "=0.12.5"
proc-macro2 = "=1.0.107"
quote = "=1.0.47"
syn = { version = "=2.0.119", features = ["full"] }

[dev-dependencies]
tokio = { version = "=1.54.1", features = ["macros", "rt", "time"] }
