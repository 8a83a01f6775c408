[package]
name = "attack_simulator"
version = "0.1.0"
edition = "2021"
publish = false

[dependencies]
chrono = "0.4"
rand = "0.8"
num_cpus = "1"
sys-info = "0.9"
serde = { version = "1", features = ["derive"] }
serde_json = "1"
env_logger = "0.10"
eframe = { version = "0.22", default-features = false, features = ["glow", "default_fonts"] }
