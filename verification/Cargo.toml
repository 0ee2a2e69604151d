[package]
name = "repo_jobs"
version = "0.1.0"
edition = "2021"
publish = false

[dependencies]
actix = "*"
chrono = { version = "0.4", features = ["serde"] }
diesel = { version = "*", features = ["postgres", "r2d2", "serde_json", "chrono"] }
libc = "0.2"
serde = { version = "1", features = ["derive"] }
serde_json = "1"
