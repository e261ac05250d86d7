[package]
name = "terraria_fisher"
version = "0.1.0"
edition = "2021"
publish = false

[dependencies]
clap = { version = "=4.6.7", features = ["derive"] }
colored = "=3.1.1"
easy-config-store = "=0.3.1"
eyre = "=0.6.14"
log = { version = "=0.4.34", features = ["std"] }
rayon = "=1.12.0"
rdev = { version = "=0.5.3", features = ["serialize"] }
serde = { version = "=1.0.229", features = ["derive"] }
smart-default = "=0.7.1"
tokio = { version = "=1.54.1", features = ["full"] }
tokio-util = "=0.7.20"
toml = "=0.8.23"
windows = { version = "=0.59.0", features = ["Win32_Foundation", "Win32_System_Diagnostics_Debug", "Win32_System_Diagnostics_ToolHelp", "Win32_System_Memory", "Win32_System_Threading"] }
