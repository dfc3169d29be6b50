[package]
name = "terminal_backend"
version = "0.1.0"
edition = "2021"
publish = false

[dependencies]
corcovado = "=0.5.5"
iced_core = "=0.14.0"
open = "=5.4.5"
rio-vt = "=0.5.5"
teletypewriter = "=0.5.5"
tokio = { version = "=1.54.1", features = ["sync"] }
