[package]
name = "activity_graph"
version = "0.1.0"
edition = "2021"
publish = false

[dependencies]
chrono = { version = "0.4", default-features = false, features = ["std"] }
ratatui = { version = "0.29", default-features = false }
