[package]
name = "loadcell_core"
version = "0.1.0"
edition = "2021"
publish = false

[dependencies]
anyhow = "*"
embedded-svc = "*"
esp-idf-hal = "*"
esp-idf-svc = "*"
esp-idf-sys = "*"
log = "*"
serde_json = "*"
