[package]
name = "pseudo_element"
version = "0.1.0"
edition = "2021"
publish = false

[dependencies]
cssparser = "=0.38.0"
selectors = "=0.41.0"
