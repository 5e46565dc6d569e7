[package]
name = "iced_component"
version = "0.1.0"
edition = "2021"
publish = false

[dependencies]
spectrum-theme = { version = "=0.2.0", features = ["toml", "iced"] }
aura-anim = "=0.3.1"
aura-anim-core = "=0.3.1"
thiserror = "=2.0.21"
bytemuck = "=1.25.2"
iced = "=0.14.0"
