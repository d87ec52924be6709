[package]
name = "solar_system"
version = "0.1.0"
edition = "2021"
publish = false

[dependencies]
const_soft_float = "=0.1.4"
csv = "=1.4.0"
macroquad = { version = "=0.4.16", default-features = false }
phf = { version = "=0.11.3", features = ["macros"] }
rustc_apfloat = "=0.2.3"
serde = { version = "=1.0.229", features = ["derive"] }
