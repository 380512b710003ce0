[package]
name = "outify_core"
version = "0.1.0"
edition = "2021"
publish = false

[dependencies]
librespot-metadata = "=0.8.0"
librespot-core = "=0.8.0"
librespot-oauth = "=0.8.0"
oauth2 = "=5.0.0"
once_cell = "=1.21.4"
reqwest = { version = "=0.12.28", default-features = false, features = ["json"] }
serde = { version = "=1.0.229", features = ["derive"] }
serde_json = "=1.0.154"
tokio = { version = "=1.54.1", features = ["sync", "rt"] }
jni = "=0.21.1"
# Not used by this crate: pins the vergen that librespot-core's build script
# needs (vergen-gitcl 1.0 does not compile against vergen 9.1).
vergen = { version = "=9.0.6", default-features = false }
