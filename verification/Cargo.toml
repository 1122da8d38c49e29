[package]
name = "cairo_context"
version = "0.1.0"
edition = "2021"
publish = false

[dependencies]
cairo-sys-rs = "*"
glib = "*"
c_vec = "*"
libc = "*"
