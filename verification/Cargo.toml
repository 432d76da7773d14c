[package]
name = "tantivy_bridge"
version = "0.1.0"
edition = "2021"
publish = false

[dependencies]
tantivy = "=0.26.2"
serde_json = "=1.0.151"
fs-err = "=3.3.2"
jni = "=0.21.1"

[dev-dependencies]
tempfile = "=3.27.0"
