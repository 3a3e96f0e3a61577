[package]
name = "claimeer"
version = "0.1.0"
edition = "2021"
publish = false

[dependencies]
subxt = { version = "=0.38.1", default-features = false, features = ["native"] }
num-format = "0.4"
hex = "0.4"
humantime = "2"
rand = "0.8"
serde_json = "1"
serde = { version = "1", features = ["derive"] }
anyhow = "1"
thiserror = "1"
log = "0.4"
futures = "0.3"
yew = { version = "0.21", features = ["csr"] }
wasm-bindgen = "0.2"
js-sys = "0.3"
web-sys = "0.3"
