[package]
name = "headless_chrome_operation_map"
version = "0.1.0"
edition = "2021"
publish = false

[dependencies]
anyhow = "1"
headless_chrome = "1"
nix = "*"
serde = { version = "1", features = ["derive"] }
serde_json = "1"
thiserror = "1"
winapi = { version = "0.3", features = ["handleapi", "processthreadsapi", "winnt"] }
