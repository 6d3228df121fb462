[package]
name = "mpmc"
version = "0.1.0"
edition = "2021"
publish = false

[dependencies]
ansi-to-html = "=0.2.4"
tokio = { version = "=1.53.2", default-features = false, features = ["macros", "rt-multi-thread", "time"] }
