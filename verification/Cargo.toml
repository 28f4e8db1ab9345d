[package]
name = "ironpress"
version = "0.1.0"
edition = "2021"
publish = false

[dependencies]
bytemuck = { version = "=1.25.2", features = ["extern_crate_alloc"] }
clap = { version = "=4.6.7", features = ["derive"] }
image = { version = "=0.24.9", default-features = false, features = ["png"] }
json = "=0.12.4"
