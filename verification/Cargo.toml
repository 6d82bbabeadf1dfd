[package]
name = "dcs-hemmecs"
version = "0.1.0"
edition = "2021"
publish = false

[dependencies]
anyhow = "=1.0.104"
crossbeam = "=0.8.5"
font-kit = "0.14"
nalgebra-glm = "=0.21.0"
once_cell = "=1.21.4"
raqote = "=0.8.5"
regex = "=1.13.1"
serde = { version = "=1.0.229", features = ["derive"] }
serde_json = "=1.0.154"
toml = "=0.5.11"
winapi = { version = "0.3", features = ["combaseapi", "errhandlingapi", "knownfolders", "libloaderapi", "shlobj", "windef", "winerror", "wingdi", "winuser"] }
