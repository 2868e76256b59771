[package]
name = "prefer_mocked"
version = "0.1.0"
edition = "2021"
publish = false

[dependencies]
oxc_ast = "=0.143.0"
oxc_span = "=0.143.0"
oxc_semantic = "=0.143.0"
oxc_diagnostics = "=0.143.0"

[dev-dependencies]
oxc_parser = "=0.143.0"
oxc_allocator = "=0.143.0"
