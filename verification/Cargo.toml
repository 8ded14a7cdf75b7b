[package]
name = "tca9548"
version = "0.1.0"
edition = "2021"

[dependencies]
embedded-hal = "1.0"
spin = { version = "0.9", default-features = false, features = ["mutex", "spin_mutex"] }
