[package]
name = "citybound-ui"
version = "0.1.0"
edition = "2021"
publish = false

[dependencies]
repose-core = "=0.30.22"
repose-ui = "=0.30.22"
console_error_panic_hook = "=0.1.7"
web-sys = { version = "=0.3.107", default-features = false, features = ["console"] }
web-workers = { version = "=0.3.7", default-features = false }
