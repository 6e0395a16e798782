[package]
name = "wascc-provider"
version = "0.5.0"
edition = "2021"
publish = false

[dependencies]
anyhow = "=1.0.104"
async-trait = "=0.1.92"
chrono = "=0.4.19"
k8s-openapi = { version = "=0.8.0", default-features = false, features = ["v1_17"] }
kube = { version = "=0.35.1", default-features = false, features = ["rustls-tls"] }
kubelet = { version = "=0.4.0", default-features = false, features = ["rustls-tls"] }
log = "=0.4.35"
rand = "=0.7.3"
serde_json = "=1.0.154"
tempfile = "=3.1.0"
tokio = { version = "=0.2.25", features = ["fs", "macros", "rt-core", "blocking", "sync"] }
wascc-fs = { version = "=0.1.2", features = ["static_plugin"] }
wascc-host = "=0.14.0"
wascc-logging = { version = "=0.8.0", features = ["static_plugin"] }

# No code uses the four below. They only hold crates that others depend on to versions that go
# together: rmp to one that the codec of wascc-host compiles with, zeroize_derive for the features
# of syn that the macros of wasmtime need, and url and wat to ones with fewer dependencies.
rmp = "=0.8.9"
url = "=2.2.2"
wat = "=1.0.39"
zeroize_derive = "=1.3.3"

[dev-dependencies]
wascap = "=0.5.2"
