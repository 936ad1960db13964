[package]
name = "plugin_host"
version = "0.1.0"
edition = "2021"
publish = false

[dependencies]
anyhow = "1"
async-std = "1"
embedded-hal = "1"
gpio-cdev = "0.6"
linux-embedded-hal = { version = "0.4", default-features = false, features = ["gpio_cdev"] }
md5 = "0.7"
reqwest = { version = "0.12", default-features = false, features = ["blocking"] }
serde_json = "1"
wasmtime = { version = "20", default-features = false, features = ["runtime", "component-model", "cranelift"] }
