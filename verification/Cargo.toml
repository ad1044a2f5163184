[package]
name = "usvg"
version = "0.1.0"
edition = "2021"
publish = false

[dependencies]
svgdom = "=0.16.1"
log = "=0.4.34"
fern = "=0.5.9"
