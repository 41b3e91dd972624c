[package]
name = "audio_spectrum"
version = "0.1.0"
edition = "2021"
publish = false

[dependencies]
anyhow = "1"
bytemuck = { version = "1", features = ["derive"] }
egui = "0.21"
egui_wgpu_backend = "0.22"
egui_winit_platform = "0.18"
env_logger = { version = "0.10", default-features = false }
glam = { version = "0.24", features = ["bytemuck"] }
ringbuf = "0.3"
rustfft = "6"
spin_sleep = "=1.1.1"
tokio = { version = "1", features = ["macros", "rt-multi-thread"] }
wgpu = "0.15"
winit = "0.28"
