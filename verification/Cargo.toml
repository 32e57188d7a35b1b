[package]
name = "gpu_util"
version = "0.1.0"
edition = "2021"
publish = false

[dependencies]
wgpu = { version = "=27.0.1", features = ["noop"] }
wgpu-hal = "=27.0.4"
wgpu-types = "=27.0.1"
ash = "=0.38.0"
bytemuck = { version = "=1.25.2", features = ["extern_crate_alloc"] }
futures = "=0.3.34"
rayon = "=1.12.0"
anyhow = "=1.0.104"
tokio = { version = "=1.54.1", features = ["rt-multi-thread"] }
serde = { version = "=1.0.229", features = ["derive"] }
serde_json = "=1.0.154"
thiserror = "=2.0.21"
toml_edit = "=0.23.10"
drm-fourcc = "=2.2.0"
libc = "=0.2.191"
pyo3 = "=0.27.2"
numpy = "=0.27.1"
napi = { version = "=3.15.0", features = ["serde-json"] }
napi-derive = "=3.6.13"
