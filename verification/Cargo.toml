[package]
name = "data_analysis"
version = "0.1.0"
edition = "2021"
publish = false

[dependencies]
chrono = "0.4"
clap = { version = "4", features = ["derive"] }
csv = "1"
fin-primitives = "*"
log = "0.4"
plotly = "*"
plotters = { version = "*", default-features = false, features = ["svg_backend", "all_series", "all_elements"] }
rust_decimal = "1"
serde = { version = "1", features = ["derive"] }
serde_json = "1"
smartcore = "*"
toml = "*"
