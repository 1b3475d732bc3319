[package]
name = "minifiber"
version = "0.1.0"
edition = "2021"
publish = false

[dependencies]
cc = "=1.11.0"
winapi = { version = "=0.3.9", features = ["fibersapi", "minwindef", "std", "winbase"] }
