[package]
name = "hw_dcmi_wrapper"
version = "0.1.0"
edition = "2021"
publish = false

[dependencies]
hw_dcmi_wrapper_sys = { version = "*", features = ["load_dynamic"] }
serde = { version = "*", features = ["derive"] }
