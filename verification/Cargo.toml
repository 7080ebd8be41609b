[package]
name = "deno_loader"
version = "0.1.0"
edition = "2021"
publish = false

[dependencies]
anyhow = "1"
async-trait = "0.1"
base64 = "=0.22.1"
chrono = { version = "0.4", features = ["serde"] }
console_error_panic_hook = "0.1"
deno_ast = { version = "=0.53.3", features = ["transpiling"] }
deno_cache_dir = "=0.47.0"
deno_config = "=0.105.0"
deno_error = "=0.7.1"
deno_graph = "=0.110.1"
deno_npm_cache = "=0.74.0"
deno_npm_installer = "=0.50.0"
deno_path_util = "=0.6.4"
deno_resolver = { version = "=0.86.0", features = ["graph", "deno_ast"] }
deno_semver = "=0.10.1"
deno_unsync = "=0.4.4"
js-sys = "0.3"
log = "=0.4.35"
node_resolver = "=0.93.0"
serde = { version = "1", features = ["derive"] }
serde-wasm-bindgen = "0.6"
sys_traits = { version = "=0.1.29", features = ["real"] }
url = "=2.5.8"
wasm-bindgen = "0.2"
