[package]
name = "dxf2elmt"
version = "0.1.0"
edition = "2021"
publish = false

[dependencies]
anyhow = "1"
dxf = "*"
hex_color = "*"
serde = { version = "1", features = ["derive"] }
simple-xml-builder = "*"
unicode-segmentation = "1"
uuid = { version = "1", features = ["v4"] }
