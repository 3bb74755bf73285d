[package]
name = "brillig_dbg"
version = "0.1.0"
edition = "2021"
publish = false

[dependencies]
acvm = "=0.46.0"
dap = "=0.4.1-alpha1"
serde_json = "=1.0.151"
