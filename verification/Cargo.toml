[package]
name = "slime_hex"
version = "0.1.0"
edition = "2021"
publish = false

[dependencies]
hexx = "=0.22.0"
rand = "=0.9.5"

[dependencies.bevy]
version = "=0.17.3"
default-features = false
features = [
    "std",
    "multi_threaded",
    "bevy_asset",
    "bevy_color",
    "bevy_core_pipeline",
    "bevy_render",
    "bevy_image",
    "bevy_mesh",
    "bevy_camera",
    "bevy_shader",
    "bevy_sprite",
    "bevy_sprite_render",
    "bevy_text",
    "bevy_ui",
    "bevy_ui_render",
    "bevy_window",
    "bevy_dev_tools",
    "bevy_log",
    "default_font",
    "png",
]
