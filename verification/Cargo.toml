[package]
name = "ruuviscanner"
version = "0.1.0"
edition = "2021"
publish = false

[dependencies]
dbus = { version = "=0.9.12", features = ["vendored"] }
tokio = { version = "=1.54.1", features = ["macros", "rt-multi-thread"] }
