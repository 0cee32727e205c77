[package]
name = "defmt-serial"
version = "0.1.0"
edition = "2021"
publish = false

[dependencies]
critical-section = { version = "1", features = ["std"] }
defmt = "0.3"
embedded-io = "0.6"
static_cell = "2"
