[package]
name = "penumbra_ibc"
version = "0.1.0"
edition = "2021"
publish = false

[dependencies]
hex = "=0.4.3"
sha2 = "=0.10.9"
base64 = "=0.21.7"
anyhow = "=1.0.104"
tendermint = "=0.40.4"
ibc-types = "=0.16.0"
ibc-proto = "=0.52.0"
serde = { version = "=1.0.229", features = ["derive"] }
serde_json = "=1.0.154"
directories = "=6.0.0"
rand_core = { version = "=0.6.4", features = ["getrandom"] }
structopt = "=0.3.26"
tracing = "=0.1.44"
async-trait = "=0.1.92"
wasm-bindgen = "=0.2.129"
serde-wasm-bindgen = "=0.6.5"
web-sys = { version = "=0.3.106", features = ["console"] }
