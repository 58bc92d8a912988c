[package]
name = "js_minifier"
version = "0.1.0"
edition = "2021"
publish = false

[dependencies]
serde = { version = "=1.0.229", features = ["derive"] }
swc_common = { version = "=26.0.0", features = ["sourcemap"] }
swc_ecma_ast = "=29.0.2"
swc_ecma_parser = "=46.0.0"
swc_ecma_codegen = "=32.0.3"
swc_ecma_minifier = "=63.0.0"
swc_ecma_transforms_base = "=50.0.0"
swc_ecma_transforms_compat = "=58.0.0"
napi = "=3.14.2"
napi-derive = "=3.6.12"
