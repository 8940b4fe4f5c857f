[package]
name = "night_lamp"
version = "0.1.0"
edition = "2021"
publish = false

[dependencies]
anyhow = "=1.0.104"
thiserror = "=2.0.21"
log = "=0.4.35"
once_cell = "=1.21.4"
esp-idf-sys = { version = "=0.37.2", features = ["binstart"] }
esp-idf-hal = "=0.46.2"
esp-idf-svc = "=0.52.1"
